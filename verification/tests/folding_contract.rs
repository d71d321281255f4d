//! The folding core's error taxonomy and round trips, on concrete
//! values.

use ivc_fold::circuit::StepRule;
use ivc_fold::errors::IvcError;
use ivc_fold::folding::{
    compress, fold, setup, verify, verify_compressed, PublicParameters, RecursiveProof,
};
use ivc_fold::inputs::{build_constant_schedule, PrivValue, PrivateInputSet};

fn params(arity: usize) -> PublicParameters {
    PublicParameters { arity, num_constraints: (0, 0), num_variables: (0, 0) }
}

#[test]
fn fold_three_inputs_traces_the_circuit() {
    let schedule = build_constant_schedule(4, "adder", 9);
    let proof = fold(&StepRule::AdditiveThree, &vec![4, 7, 8], &schedule).unwrap();
    assert_eq!(proof.steps, 4);
    assert_eq!(proof.z0, vec![4, 7, 8]);
    assert_eq!(proof.zi, vec![360, 560, 551]);
}

#[test]
fn fold_two_inputs_traces_the_circuit() {
    let schedule = build_constant_schedule(5, "adder", 3);
    let proof = fold(&StepRule::AdditiveTwo, &vec![10, 10], &schedule).unwrap();
    assert_eq!(proof.steps, 5);
    assert_eq!(proof.zi, vec![25, 90]);
}

#[test]
fn fold_one_step_values() {
    // [4, 7, 8] with adder 9: one step gives [20, 28, 19].
    let schedule = build_constant_schedule(1, "adder", 9);
    let proof = fold(&StepRule::AdditiveThree, &vec![4, 7, 8], &schedule).unwrap();
    assert_eq!(proof.zi, vec![20, 28, 19]);
}

#[test]
fn fold_empty_schedule_never_steps() {
    let proof = fold(&StepRule::AdditiveTwo, &vec![10, 10], &Vec::new()).unwrap();
    assert_eq!(proof.steps, 0);
    assert_eq!(proof.zi, vec![10, 10]);
}

#[test]
fn fold_missing_key_is_schema_mismatch() {
    let mut schedule = Vec::new();
    let mut set = PrivateInputSet::new();
    set.insert("added".to_string(), PrivValue::Word(3));
    schedule.push(set);
    let r = fold(&StepRule::AdditiveTwo, &vec![10, 10], &schedule);
    assert_eq!(r.unwrap_err(), IvcError::SchemaMismatch);
}

#[test]
fn fold_overflow_is_witness_rejection_with_step() {
    // Step 2 pushes the first component past the u64 range.
    let schedule = build_constant_schedule(3, "adder", u64::MAX / 2);
    let r = fold(&StepRule::AdditiveTwo, &vec![0, 0], &schedule);
    assert_eq!(r.unwrap_err(), IvcError::WitnessGenerationError { step: 2 });
}

#[test]
fn fold_huge_decimal_adder_is_witness_rejection() {
    let mut schedule = Vec::new();
    let mut set = PrivateInputSet::new();
    set.insert(
        "adder".to_string(),
        PrivValue::Big("18446744073709551616".to_string()),  // 2^64
    );
    schedule.push(set);
    let r = fold(&StepRule::AdditiveTwo, &vec![0, 0], &schedule);
    assert_eq!(r.unwrap_err(), IvcError::WitnessGenerationError { step: 0 });
}

#[test]
fn fold_decimal_adder_in_range_is_used() {
    let mut schedule = Vec::new();
    let mut set = PrivateInputSet::new();
    set.insert("adder".to_string(), PrivValue::Big("3".to_string()));
    schedule.push(set);
    let proof = fold(&StepRule::AdditiveTwo, &vec![10, 10], &schedule).unwrap();
    assert_eq!(proof.zi, vec![13, 20]);
}

#[test]
fn verify_rejects_every_wrong_iteration_count() {
    let schedule = build_constant_schedule(5, "adder", 3);
    let proof = fold(&StepRule::AdditiveTwo, &vec![10, 10], &schedule).unwrap();
    for n in [0usize, 1, 4, 6, 1000] {
        let r = verify(&proof, n, &vec![10, 10], &vec![0]);
        assert_eq!(r.unwrap_err(), IvcError::IterationCountMismatch);
    }
    assert!(verify(&proof, 5, &vec![10, 10], &vec![0]).is_ok());
}

#[test]
fn verify_returns_the_embedded_states() {
    let schedule = build_constant_schedule(5, "adder", 3);
    let proof = fold(&StepRule::AdditiveTwo, &vec![10, 10], &schedule).unwrap();
    let (zp, zs) = verify(&proof, 5, &vec![10, 10], &vec![0]).unwrap();
    assert_eq!(zp, vec![25, 90]);
    assert_eq!(zs, vec![0]);
}

#[test]
fn verify_rejects_a_wrong_initial_state() {
    let schedule = build_constant_schedule(5, "adder", 3);
    let proof = fold(&StepRule::AdditiveTwo, &vec![10, 10], &schedule).unwrap();
    let r = verify(&proof, 5, &vec![10, 11], &vec![0]);
    assert_eq!(r.unwrap_err(), IvcError::VerificationError);
}

#[test]
fn compression_round_trip_preserves_the_final_state() {
    let schedule = build_constant_schedule(4, "adder", 9);
    let proof = fold(&StepRule::AdditiveThree, &vec![4, 7, 8], &schedule).unwrap();
    let (zp, _) = verify(&proof, 4, &vec![4, 7, 8], &vec![0]).unwrap();
    let (pk, vk) = setup(&params(3));
    let c = compress(&pk, &proof).unwrap();
    let (czp, czs) = verify_compressed(&vk, &c, 4, &vec![4, 7, 8], &vec![0]).unwrap();
    assert_eq!(czp, zp);
    assert_eq!(czp, vec![360, 560, 551]);
    assert_eq!(czs, vec![0]);
}

#[test]
fn compress_rejects_a_malformed_proof() {
    let bad = RecursiveProof { steps: 1, z0: vec![1, 2], zi: vec![1] };
    let (pk, _) = setup(&params(2));
    assert_eq!(compress(&pk, &bad).unwrap_err(), IvcError::CompressionError);
}

#[test]
fn verify_compressed_rejects_wrong_counts() {
    let schedule = build_constant_schedule(5, "adder", 3);
    let proof = fold(&StepRule::AdditiveTwo, &vec![10, 10], &schedule).unwrap();
    let (pk, vk) = setup(&params(2));
    let c = compress(&pk, &proof).unwrap();
    let r = verify_compressed(&vk, &c, 4, &vec![10, 10], &vec![0]);
    assert_eq!(r.unwrap_err(), IvcError::IterationCountMismatch);
}

#[test]
fn model_run_flags_an_unexpected_final_state() {
    let s = ivc_fold::scenario::Scenario {
        curve: ivc_fold::curve::CurveCycle::Bn256Grumpkin,
        rule: StepRule::AdditiveTwo,
        initial_state: vec![10, 10],
        schedule: build_constant_schedule(5, "adder", 3),
        expected_final: Some(vec![25, 91]),
    };
    let r = ivc_fold::scenario::run_model(&s);
    assert_eq!(r.unwrap_err(), IvcError::VerificationError);
}
