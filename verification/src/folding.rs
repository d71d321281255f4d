//! The folding and verification core.
//!
//! `fold` executes exactly one step per scheduled private-input set, in
//! order, each step consuming the previous step's public state; the
//! result is an accumulated recursive proof carrying the initial state
//! and the embedded final output. `verify` checks a proof against the
//! iteration count and initial state the caller claims; `compress` and
//! `verify_compressed` do the same for the compact form. An empty
//! schedule folds to a zero-step proof whose output is the initial state,
//! without a single step being evaluated.

use vstd::prelude::*;

use crate::circuit::{
    fits_u64, lemma_step_adder_bound, nats, step_nat, step_values, trace_fits,
    trace_nat, StepRule,
};
use crate::errors::IvcError;
use crate::inputs::{
    adders_of, all_wf, check_schedule, schedule_has_rule_keys, set_has_rule_keys, PrivateInputSet,
};

verus! {

/// The accumulated proof of a run: how many steps were folded, from
/// which initial public state, and the embedded final output.
#[derive(Debug)]
pub struct RecursiveProof {
    pub steps: usize,
    pub z0: Vec<u64>,
    pub zi: Vec<u64>,
}

/// The compact form of a terminal recursive proof.
#[derive(Debug)]
pub struct CompressedProof {
    pub steps: usize,
    pub z0: Vec<u64>,
    pub zn: Vec<u64>,
}

/// Setup data derived once per run from the circuit artifact: the step
/// circuit's public arity, and the engine-reported constraint and
/// variable counts of the primary and secondary circuits.
#[derive(Clone, Copy, Debug)]
pub struct PublicParameters {
    pub arity: usize,
    pub num_constraints: (usize, usize),
    pub num_variables: (usize, usize),
}

/// The proving half of a compression key pair.
#[derive(Clone, Copy, Debug)]
pub struct ProvingKey {
    pub arity: usize,
}

/// The verifying half of a compression key pair.
#[derive(Clone, Copy, Debug)]
pub struct VerifyingKey {
    pub arity: usize,
}

/// An owned copy of a public state vector.
pub fn copy_state(z: &Vec<u64>) -> (r: Vec<u64>)
    ensures
        r@ == z@,
{
    let mut r: Vec<u64> = Vec::new();
    let mut i: usize = 0;
    let n = z.len();
    while i < n
        invariant
            i <= n,
            n == z@.len(),
            r@ =~= z@.take(i as int),
        decreases n - i,
    {
        r.push(z[i]);
        i += 1;
    }
    proof {
        assert(z@.take(n as int) =~= z@);
    }
    r
}

/// Equality of two public state vectors.
pub fn state_eq(a: &Vec<u64>, b: &Vec<u64>) -> (r: bool)
    ensures
        r == (a@ == b@),
{
    let n = a.len();
    if n != b.len() {
        proof {
            assert(a@ != b@);
        }
        return false;
    }
    let mut i: usize = 0;
    while i < n
        invariant
            i <= n,
            n == a@.len(),
            n == b@.len(),
            forall|j: int| 0 <= j < i ==> a@[j] == b@[j],
        decreases n - i,
    {
        if a[i] != b[i] {
            return false;
        }
        i += 1;
    }
    proof {
        assert(a@ =~= b@);
    }
    true
}

/// The run's states stay within `u64` range up to `step`, and leave it
/// at `step`: the modelled witness generator rejects exactly there.
pub open spec fn overflow_at(rule: StepRule, z0: Seq<u64>, adders: Seq<nat>, step: usize) -> bool {
    &&& step < adders.len()
    &&& forall|k: int|
        0 <= k <= step ==> fits_u64(#[trigger] trace_nat(rule, nats(z0), adders.take(k)))
    &&& !fits_u64(trace_nat(rule, nats(z0), adders.take(step + 1)))
}

/// Fold one step per scheduled private-input set, in order.
///
/// The contract is exact, case by case: a set missing a declared key is
/// `SchemaMismatch`; a step whose output leaves the `u64` range is the
/// witness generator rejecting that step, reported with its index; and a
/// successful fold embeds precisely the modelled trace. An empty
/// schedule succeeds with the initial state unchanged and no step ever
/// evaluated.
pub fn fold(rule: &StepRule, z0: &Vec<u64>, schedule: &Vec<PrivateInputSet>) -> (r: Result<
    RecursiveProof,
    IvcError,
>)
    requires
        rule.modeled(),
        z0@.len() == rule.spec_arity(),
        all_wf(schedule@),
    ensures
        ({
            let adders = adders_of(schedule@);
            match r {
                Ok(p) => {
                    &&& schedule_has_rule_keys(*rule, schedule@)
                    &&& trace_fits(*rule, nats(z0@), adders)
                    &&& p.steps == schedule@.len()
                    &&& p.z0@ == z0@
                    &&& p.zi@.len() == rule.spec_arity()
                    &&& nats(p.zi@) == trace_nat(*rule, nats(z0@), adders)
                    &&& (schedule@.len() == 0 ==> p.zi@ == z0@)
                },
                Err(IvcError::SchemaMismatch) => !schedule_has_rule_keys(*rule, schedule@),
                Err(IvcError::WitnessGenerationError { step }) => {
                    &&& schedule_has_rule_keys(*rule, schedule@)
                    &&& overflow_at(*rule, z0@, adders, step)
                },
                Err(_) => false,
            }
        }),
{
    check_schedule(rule, schedule)?;
    let ghost adders = adders_of(schedule@);
    let n = schedule.len();
    let mut z = copy_state(z0);
    proof {
        assert(adders.take(0) =~= Seq::<nat>::empty());
        assert(forall|j: int| 0 <= j < z@.len() ==> nats(z@)[j] <= u64::MAX as nat);
    }
    let mut i: usize = 0;
    while i < n
        invariant
            rule.modeled(),
            z0@.len() == rule.spec_arity(),
            all_wf(schedule@),
            schedule_has_rule_keys(*rule, schedule@),
            adders == adders_of(schedule@),
            n == schedule@.len(),
            i <= n,
            z@.len() == rule.spec_arity(),
            nats(z@) == trace_nat(*rule, nats(z0@), adders.take(i as int)),
            forall|k: int|
                0 <= k <= i ==> fits_u64(#[trigger] trace_nat(*rule, nats(z0@), adders.take(k))),
        decreases n - i,
    {
        let set = &schedule[i];
        proof {
            assert(set_has_rule_keys(*rule, schedule@[i as int]));
            assert(rule.spec_private_keys()[0] == "adder"@);
            assert(set.key_map().contains_key("adder"@));
            assert(adders[i as int] == schedule@[i as int].spec_adder());
            assert(adders.take(i as int + 1).drop_last() =~= adders.take(i as int));
            assert(adders.take(i as int + 1).last() == adders[i as int]);
        }
        let v = match set.get("adder") {
            Some(v) => v,
            None => {
                proof {
                    assert(false);
                }
                return Err(IvcError::SchemaMismatch);
            },
        };
        proof {
            assert(schedule@[i as int].spec_adder() == v.as_nat());
        }
        let adder = match v.as_u64_checked() {
            Some(w) => w,
            None => {
                proof {
                    lemma_step_adder_bound(*rule, nats(z@), adders[i as int]);
                    assert(trace_nat(*rule, nats(z0@), adders.take(i as int + 1)) == step_nat(
                        *rule,
                        nats(z@),
                        adders[i as int],
                    ));
                    assert(!fits_u64(trace_nat(*rule, nats(z0@), adders.take(i as int + 1))));
                }
                return Err(IvcError::WitnessGenerationError { step: i });
            },
        };
        proof {
            assert(adder as nat == adders[i as int]);
            assert(trace_nat(*rule, nats(z0@), adders.take(i as int + 1)) == step_nat(
                *rule,
                nats(z@),
                adders[i as int],
            ));
        }
        let next = match step_values(rule, &z, adder) {
            Some(next) => next,
            None => {
                return Err(IvcError::WitnessGenerationError { step: i });
            },
        };
        proof {
            assert(nats(next@) == trace_nat(*rule, nats(z0@), adders.take(i as int + 1)));
            assert(fits_u64(trace_nat(*rule, nats(z0@), adders.take(i as int + 1))));
        }
        z = next;
        i += 1;
    }
    proof {
        assert(adders.take(n as int) =~= adders);
    }
    let zi = z;
    proof {
        if n == 0 {
            assert(trace_nat(*rule, nats(z0@), adders) == nats(z0@));
            assert(zi@.len() == z0@.len());
            assert forall|j: int| 0 <= j < zi@.len() implies zi@[j] == z0@[j] by {
                assert(nats(zi@)[j] == nats(z0@)[j]);
            }
            assert(zi@ =~= z0@);
        }
    }
    Ok(RecursiveProof { steps: n, z0: copy_state(z0), zi })
}

/// A proof, an iteration count and an initial state that belong
/// together: what `verify` accepts.
pub open spec fn spec_verify_ok(p: RecursiveProof, n: usize, z0: Seq<u64>) -> bool {
    &&& n == p.steps
    &&& z0 == p.z0@
    &&& p.zi@.len() == p.z0@.len()
}

/// Check a recursive proof against the iteration count and initial
/// states the caller claims.
///
/// An iteration count other than the number of steps the proof was
/// folded over fails fast with `IterationCountMismatch`, whatever the
/// rest of the arguments; this holds for every mismatched count. With
/// the count right, a wrong initial state or a malformed output is
/// `VerificationError`; otherwise the embedded final states are
/// returned, the secondary one unchanged from its zero state.
pub fn verify(proof_arg: &RecursiveProof, iteration_count: usize, z0_primary: &Vec<u64>,
    z0_secondary: &Vec<u64>) -> (r: Result<(Vec<u64>, Vec<u64>), IvcError>)
    ensures
        iteration_count != proof_arg.steps ==> r == Err::<(Vec<u64>, Vec<u64>), IvcError>(
            IvcError::IterationCountMismatch,
        ),
        match r {
            Ok(out) => {
                &&& spec_verify_ok(*proof_arg, iteration_count, z0_primary@)
                &&& out.0@ == proof_arg.zi@
                &&& out.1@ == z0_secondary@
            },
            Err(IvcError::IterationCountMismatch) => iteration_count != proof_arg.steps,
            Err(IvcError::VerificationError) => iteration_count == proof_arg.steps
                && !spec_verify_ok(*proof_arg, iteration_count, z0_primary@),
            Err(_) => false,
        },
{
    if iteration_count != proof_arg.steps {
        return Err(IvcError::IterationCountMismatch);
    }
    if !state_eq(&proof_arg.z0, z0_primary) {
        return Err(IvcError::VerificationError);
    }
    if proof_arg.zi.len() != proof_arg.z0.len() {
        return Err(IvcError::VerificationError);
    }
    Ok((copy_state(&proof_arg.zi), copy_state(z0_secondary)))
}

/// Derive the compression key pair, a pure function of the parameters.
pub fn setup(params: &PublicParameters) -> (keys: (ProvingKey, VerifyingKey))
    ensures
        keys.0.arity == params.arity,
        keys.1.arity == params.arity,
{
    (ProvingKey { arity: params.arity }, VerifyingKey { arity: params.arity })
}

/// A terminal, verified-shape proof for the given arity: what
/// `compress` accepts.
pub open spec fn spec_compressible(p: RecursiveProof, arity: usize) -> bool {
    &&& p.z0@.len() == arity as nat
    &&& p.zi@.len() == p.z0@.len()
}

/// Compress a terminal recursive proof; a proof whose shape does not
/// match the key fails with `CompressionError`.
pub fn compress(pk: &ProvingKey, proof_arg: &RecursiveProof) -> (r: Result<
    CompressedProof,
    IvcError,
>)
    ensures
        match r {
            Ok(c) => {
                &&& spec_compressible(*proof_arg, pk.arity)
                &&& c.steps == proof_arg.steps
                &&& c.z0@ == proof_arg.z0@
                &&& c.zn@ == proof_arg.zi@
            },
            Err(e) => e == IvcError::CompressionError && !spec_compressible(*proof_arg, pk.arity),
        },
{
    if proof_arg.z0.len() != pk.arity || proof_arg.zi.len() != proof_arg.z0.len() {
        return Err(IvcError::CompressionError);
    }
    Ok(CompressedProof {
        steps: proof_arg.steps,
        z0: copy_state(&proof_arg.z0),
        zn: copy_state(&proof_arg.zi),
    })
}

/// What `verify_compressed` accepts.
pub open spec fn spec_verify_compressed_ok(c: CompressedProof, n: usize, z0: Seq<u64>) -> bool {
    &&& n == c.steps
    &&& z0 == c.z0@
    &&& c.zn@.len() == c.z0@.len()
}

/// Check a compressed proof, under the same contract as `verify`.
pub fn verify_compressed(vk: &VerifyingKey, c: &CompressedProof, iteration_count: usize,
    z0_primary: &Vec<u64>, z0_secondary: &Vec<u64>) -> (r: Result<(Vec<u64>, Vec<u64>), IvcError>)
    ensures
        iteration_count != c.steps ==> r == Err::<(Vec<u64>, Vec<u64>), IvcError>(
            IvcError::IterationCountMismatch,
        ),
        match r {
            Ok(out) => {
                &&& spec_verify_compressed_ok(*c, iteration_count, z0_primary@)
                &&& z0_primary@.len() == vk.arity as nat
                &&& out.0@ == c.zn@
                &&& out.1@ == z0_secondary@
            },
            Err(IvcError::IterationCountMismatch) => iteration_count != c.steps,
            Err(IvcError::VerificationError) => iteration_count == c.steps && !(
            spec_verify_compressed_ok(*c, iteration_count, z0_primary@) && z0_primary@.len()
                == vk.arity as nat),
            Err(_) => false,
        },
{
    if iteration_count != c.steps {
        return Err(IvcError::IterationCountMismatch);
    }
    if c.z0.len() != vk.arity {
        return Err(IvcError::VerificationError);
    }
    if !state_eq(&c.z0, z0_primary) {
        return Err(IvcError::VerificationError);
    }
    if c.zn.len() != c.z0.len() {
        return Err(IvcError::VerificationError);
    }
    Ok((copy_state(&c.zn), copy_state(z0_secondary)))
}

} // verus!
