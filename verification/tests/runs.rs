//! The shipped run fixtures, driven end to end through the modelled
//! pipeline.

use ivc_fold::circuit::StepRule;
use ivc_fold::curve::CurveCycle;
use ivc_fold::driver::{Action, FoldingDriver, Phase};
use ivc_fold::scenario::{
    run_model, scenario_bn254_three_inputs, scenario_bn254_two_inputs,
    scenario_poseidon_two_priv_inputs, scenario_pasta_two_inputs,
};

#[test]
fn test_bn254_2inputs_folding() {
    let s = scenario_bn254_two_inputs();
    assert!(matches!(s.curve, CurveCycle::Bn256Grumpkin));
    let report = run_model(&s).unwrap();
    assert_eq!(report.iterations, 5);
    assert_eq!(report.final_primary, vec![25u64, 90u64]);
    assert_eq!(report.final_secondary, vec![0u64]);
}

#[test]
fn test_pasta_2inputs_folding() {
    let s = scenario_pasta_two_inputs();
    assert!(matches!(s.curve, CurveCycle::VestaPallas));
    assert_eq!(s.initial_state, vec![10u64, 10u64]);
    let report = run_model(&s).unwrap();
    assert_eq!(report.iterations, 5);
    assert_eq!(report.final_primary, vec![25u64, 90u64]);
    assert_eq!(report.final_secondary, vec![0u64]);
}

#[test]
fn test_bn254_3inputs_folding() {
    let s = scenario_bn254_three_inputs();
    assert_eq!(s.initial_state, vec![4u64, 7u64, 8u64]);
    let report = run_model(&s).unwrap();
    assert_eq!(report.iterations, 4);
    assert_eq!(report.final_primary, vec![360u64, 560u64, 551u64]);
    assert_eq!(report.final_secondary, vec![0u64]);
}

#[test]
fn poseidon_test() {
    // The hash circuit's step function lives with the external witness
    // generator; the driver sequences its run without ever evaluating it.
    let s = scenario_poseidon_two_priv_inputs();
    let mut driver = FoldingDriver::new(&s.rule, s.schedule, s.initial_state).unwrap();
    assert!(matches!(driver.next_action(), Action::DeriveParameters));
    driver.parameters_derived();
    assert!(matches!(driver.next_action(), Action::FoldStep { index: 0 }));
    driver.step_folded();
    assert!(matches!(
        driver.next_action(),
        Action::VerifyProof { iteration_count: 1 }
    ));
    driver.proof_verified();
    assert!(matches!(driver.next_action(), Action::Done));
}

#[test]
fn poseidon_2_priv_inputs_test() {
    let s = scenario_poseidon_two_priv_inputs();
    assert_eq!(s.initial_state, vec![5u64]);
    assert_eq!(s.schedule.len(), 1);
    let set = &s.schedule[0];
    assert!(set.contains_key("priv_hash_1"));
    assert!(set.contains_key("priv_hash_2"));
    assert!(!set.contains_key("priv_hash_3"));
    match &s.rule {
        StepRule::External { arity, private_keys } => {
            assert_eq!(*arity, 1);
            assert_eq!(private_keys.len(), 2);
        }
        _ => panic!("the hash circuit is externally evaluated"),
    }
    assert!(s.expected_final.is_none());
}

#[test]
fn zero_iteration_run_leaves_state_unchanged() {
    let s = ivc_fold::scenario::Scenario {
        curve: CurveCycle::Bn256Grumpkin,
        rule: StepRule::AdditiveTwo,
        initial_state: vec![10u64, 10u64],
        schedule: Vec::new(),
        expected_final: Some(vec![10u64, 10u64]),
    };
    let report = run_model(&s).unwrap();
    assert_eq!(report.iterations, 0);
    assert_eq!(report.final_primary, vec![10u64, 10u64]);
}

#[test]
fn two_runs_agree() {
    let first = run_model(&scenario_bn254_three_inputs()).unwrap();
    let second = run_model(&scenario_bn254_three_inputs()).unwrap();
    assert_eq!(first.final_primary, second.final_primary);
    assert_eq!(first.iterations, second.iterations);
}

#[test]
fn empty_schedule_driver_never_folds() {
    let mut driver =
        FoldingDriver::new(&StepRule::AdditiveTwo, Vec::new(), vec![1u64, 2u64]).unwrap();
    driver.parameters_derived();
    assert!(matches!(
        driver.next_action(),
        Action::VerifyProof { iteration_count: 0 }
    ));
    driver.folding_skipped();
    assert!(matches!(driver.next_action(), Action::VerifyProof { iteration_count: 0 }));
    driver.proof_verified();
    assert!(matches!(driver.next_action(), Action::Done));
}

#[test]
fn driver_walks_every_step_in_order() {
    let s = scenario_pasta_two_inputs();
    let mut driver = FoldingDriver::new(&s.rule, s.schedule, s.initial_state).unwrap();
    driver.parameters_derived();
    for i in 0..5usize {
        match driver.next_action() {
            Action::FoldStep { index } => assert_eq!(index, i),
            other => panic!("expected a fold action, got {:?}", other),
        }
        driver.step_folded();
    }
    assert!(matches!(
        driver.next_action(),
        Action::VerifyProof { iteration_count: 5 }
    ));
    assert_eq!(driver.iteration_count(), 5);
}

#[test]
fn phases_are_distinct() {
    assert_ne!(Phase::Unloaded, Phase::ParametersReady);
    assert_ne!(Phase::Folding { next_step: 0 }, Phase::Folding { next_step: 1 });
}
