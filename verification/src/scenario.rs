//! The shipped run fixtures, and the modelled end-to-end run.
//!
//! Each fixture is one (curve cycle, circuit shape, iteration count,
//! literal inputs, expected outputs) tuple. `run_model` executes a
//! fixture through the whole modelled pipeline — schema check, fold,
//! verify, compression setup, compress, verify compressed, and the
//! comparison against the expected final state — and its contract pins
//! the final state to the circuit's trace.

use vstd::prelude::*;

use crate::circuit::{nats, trace_nat, StepRule};
use crate::curve::CurveCycle;
use crate::errors::IvcError;
use crate::folding::{
    compress, fold, overflow_at, setup, state_eq, verify, verify_compressed, PublicParameters,
};
use crate::inputs::{
    adders_of, all_wf, build_constant_schedule, schedule_has_rule_keys, set_has_rule_keys,
    PrivValue, PrivateInputSet,
};

verus! {

/// One named run: everything a folding run is started from, plus the
/// expected final state where one is known in advance.
pub struct Scenario {
    pub curve: CurveCycle,
    pub rule: StepRule,
    pub initial_state: Vec<u64>,
    pub schedule: Vec<PrivateInputSet>,
    pub expected_final: Option<Vec<u64>>,
}

impl Scenario {
    pub open spec fn wf(&self) -> bool {
        &&& self.initial_state@.len() == self.rule.spec_arity()
        &&& all_wf(self.schedule@)
    }
}

/// What a finished run reports back.
#[derive(Debug)]
pub struct RunReport {
    pub iterations: usize,
    pub final_primary: Vec<u64>,
    pub final_secondary: Vec<u64>,
}

/// The three-input additive run on the bn254/grumpkin cycle: initial
/// state `[4, 7, 8]`, adder 9, four iterations, final state
/// `[360, 560, 551]`.
pub fn scenario_bn254_three_inputs() -> (s: Scenario)
    ensures
        s.wf(),
        s.curve == CurveCycle::Bn256Grumpkin,
        s.rule == StepRule::AdditiveThree,
        s.initial_state@ =~= seq![4u64, 7u64, 8u64],
        s.schedule@.len() == 4,
        forall|i: int|
            0 <= i < 4 ==> (#[trigger] s.schedule@[i]).key_map() == Map::<
                Seq<char>,
                PrivValue,
            >::empty().insert("adder"@, PrivValue::Word(9)),
        s.expected_final matches Some(e) && e@ =~= seq![360u64, 560u64, 551u64],
{
    let schedule = build_constant_schedule(4, "adder", 9);
    Scenario {
        curve: CurveCycle::Bn256Grumpkin,
        rule: StepRule::AdditiveThree,
        initial_state: vec![4u64, 7u64, 8u64],
        schedule,
        expected_final: Some(vec![360u64, 560u64, 551u64]),
    }
}

/// The two-input additive run on the pasta cycle: initial state
/// `[10, 10]`, adder 3, five iterations, final state `[25, 90]`.
pub fn scenario_pasta_two_inputs() -> (s: Scenario)
    ensures
        s.wf(),
        s.curve == CurveCycle::VestaPallas,
        s.rule == StepRule::AdditiveTwo,
        s.initial_state@ =~= seq![10u64, 10u64],
        s.schedule@.len() == 5,
        forall|i: int|
            0 <= i < 5 ==> (#[trigger] s.schedule@[i]).key_map() == Map::<
                Seq<char>,
                PrivValue,
            >::empty().insert("adder"@, PrivValue::Word(3)),
        s.expected_final matches Some(e) && e@ =~= seq![25u64, 90u64],
{
    let schedule = build_constant_schedule(5, "adder", 3);
    Scenario {
        curve: CurveCycle::VestaPallas,
        rule: StepRule::AdditiveTwo,
        initial_state: vec![10u64, 10u64],
        schedule,
        expected_final: Some(vec![25u64, 90u64]),
    }
}

/// The same two-input additive run bound to the bn254/grumpkin cycle.
pub fn scenario_bn254_two_inputs() -> (s: Scenario)
    ensures
        s.wf(),
        s.curve == CurveCycle::Bn256Grumpkin,
        s.rule == StepRule::AdditiveTwo,
        s.initial_state@ =~= seq![10u64, 10u64],
        s.schedule@.len() == 5,
        forall|i: int|
            0 <= i < 5 ==> (#[trigger] s.schedule@[i]).key_map() == Map::<
                Seq<char>,
                PrivValue,
            >::empty().insert("adder"@, PrivValue::Word(3)),
        s.expected_final matches Some(e) && e@ =~= seq![25u64, 90u64],
{
    let schedule = build_constant_schedule(5, "adder", 3);
    Scenario {
        curve: CurveCycle::Bn256Grumpkin,
        rule: StepRule::AdditiveTwo,
        initial_state: vec![10u64, 10u64],
        schedule,
        expected_final: Some(vec![25u64, 90u64]),
    }
}

/// The hash run whose step function lives with the external witness
/// generator: one iteration, public input `[5]`, and a circuit that
/// declares exactly the two private keys its single set binds.
/// No expected final state is known in advance.
pub fn scenario_poseidon_two_priv_inputs() -> (s: Scenario)
    ensures
        s.wf(),
        s.curve == CurveCycle::Bn256Grumpkin,
        s.rule matches StepRule::External { arity, .. } && arity == 1,
        s.rule.spec_private_keys() =~= seq!["priv_hash_1"@, "priv_hash_2"@],
        s.initial_state@ =~= seq![5u64],
        s.schedule@.len() == 1,
        s.schedule@[0].key_map() == Map::<Seq<char>, PrivValue>::empty().insert(
            "priv_hash_1"@,
            PrivValue::Word(77),
        ).insert("priv_hash_2"@, PrivValue::Word(9)),
        set_has_rule_keys(s.rule, s.schedule@[0]),
        s.expected_final is None,
{
    let mut keys: Vec<String> = Vec::new();
    keys.push("priv_hash_1".to_owned());
    keys.push("priv_hash_2".to_owned());
    let rule = StepRule::External { arity: 1, private_keys: keys };
    proof {
        assert(rule.spec_arity() == 1);
        assert(rule.spec_private_keys() =~= seq!["priv_hash_1"@, "priv_hash_2"@]);
    }
    proof {
        reveal_strlit("priv_hash_1");
        reveal_strlit("priv_hash_2");
        assert("priv_hash_1"@.index(10) == '1');
        assert("priv_hash_2"@.index(10) == '2');
        assert("priv_hash_1"@ != "priv_hash_2"@);
    }
    let mut set = PrivateInputSet::new();
    let f1 = set.insert("priv_hash_1".to_owned(), PrivValue::Word(77));
    proof {
        assert(f1);
    }
    let f2 = set.insert("priv_hash_2".to_owned(), PrivValue::Word(9));
    proof {
        assert(f2);
    }
    let mut schedule: Vec<PrivateInputSet> = Vec::new();
    schedule.push(set);
    proof {
        let km = schedule@[0].key_map();
        let pkeys = rule.spec_private_keys();
        assert forall|j: int| 0 <= j < pkeys.len() implies km.contains_key(
            #[trigger] pkeys[j],
        ) by {
            assert(km.contains_key("priv_hash_1"@));
            assert(km.contains_key("priv_hash_2"@));
        }
    }
    Scenario {
        curve: CurveCycle::Bn256Grumpkin,
        rule,
        initial_state: vec![5u64],
        schedule,
        expected_final: None,
    }
}

/// Run a modelled fixture end to end.
///
/// Success returns the run report, with the final primary state equal to
/// the circuit's trace over the schedule; a missing key is
/// `SchemaMismatch`; a step out of `u64` range is the witness generator
/// rejecting that step; and a final state other than the expected one is
/// `VerificationError`.
pub fn run_model(s: &Scenario) -> (r: Result<RunReport, IvcError>)
    requires
        s.wf(),
        s.rule.modeled(),
    ensures
        ({
            let adders = adders_of(s.schedule@);
            let trace = trace_nat(s.rule, nats(s.initial_state@), adders);
            match r {
                Ok(rep) => {
                    &&& schedule_has_rule_keys(s.rule, s.schedule@)
                    &&& rep.iterations == s.schedule@.len()
                    &&& nats(rep.final_primary@) == trace
                    &&& rep.final_secondary@ =~= seq![0u64]
                    &&& (s.expected_final matches Some(e) ==> rep.final_primary@ == e@)
                },
                Err(IvcError::SchemaMismatch) => !schedule_has_rule_keys(s.rule, s.schedule@),
                Err(IvcError::WitnessGenerationError { step }) => overflow_at(
                    s.rule,
                    s.initial_state@,
                    adders,
                    step,
                ),
                Err(IvcError::VerificationError) => s.expected_final matches Some(e) && nats(e@)
                    != trace,
                Err(_) => false,
            }
        }),
{
    let proof_obj = match fold(&s.rule, &s.initial_state, &s.schedule) {
        Ok(p) => p,
        Err(e) => {
            return Err(e);
        },
    };
    let n = s.schedule.len();
    let z0_secondary: Vec<u64> = vec![0u64];
    let (zp, zs) = match verify(&proof_obj, n, &s.initial_state, &z0_secondary) {
        Ok(out) => out,
        Err(_) => {
            proof {
                assert(false);
            }
            return Err(IvcError::VerificationError);
        },
    };
    let params = PublicParameters {
        arity: s.rule.arity(),
        num_constraints: (0, 0),
        num_variables: (0, 0),
    };
    let keys = setup(&params);
    let c = match compress(&keys.0, &proof_obj) {
        Ok(c) => c,
        Err(_) => {
            proof {
                assert(false);
            }
            return Err(IvcError::CompressionError);
        },
    };
    let (czp, _czs) = match verify_compressed(&keys.1, &c, n, &s.initial_state, &z0_secondary) {
        Ok(out) => out,
        Err(_) => {
            proof {
                assert(false);
            }
            return Err(IvcError::VerificationError);
        },
    };
    proof {
        assert(czp@ == zp@);
    }
    match &s.expected_final {
        Some(e) => {
            if !state_eq(&zp, e) {
                proof {
                    crate::circuit::lemma_nats_injective(zp@, e@);
                }
                return Err(IvcError::VerificationError);
            }
        },
        None => {},
    }
    Ok(RunReport { iterations: n, final_primary: zp, final_secondary: zs })
}

} // verus!
