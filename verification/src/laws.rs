//! The laws the folding core obeys, stated over the same spec functions
//! the executable contracts use.

use vstd::prelude::*;

use crate::circuit::{lemma_nats_injective, nats, trace_nat, StepRule};
use crate::folding::{
    spec_compressible, spec_verify_compressed_ok, spec_verify_ok, CompressedProof, ProvingKey,
    RecursiveProof, VerifyingKey,
};
use crate::inputs::{adders_of, PrivateInputSet};

verus! {

/// Determinism: for a fixed (circuit, initial state, schedule), folding
/// is a function. Any two proofs that meet `fold`'s contract on the same
/// inputs carry the same step count and embed the same final output, so
/// two independent runs of `fold` then `verify` return identical final
/// public states.
pub proof fn lemma_fold_deterministic(
    rule: StepRule,
    z0: Seq<u64>,
    schedule: Seq<PrivateInputSet>,
    p1: RecursiveProof,
    p2: RecursiveProof,
)
    requires
        p1.steps == schedule.len(),
        p1.z0@ == z0,
        nats(p1.zi@) == trace_nat(rule, nats(z0), adders_of(schedule)),
        p2.steps == schedule.len(),
        p2.z0@ == z0,
        nats(p2.zi@) == trace_nat(rule, nats(z0), adders_of(schedule)),
    ensures
        p1.steps == p2.steps,
        p1.z0@ == p2.z0@,
        p1.zi@ == p2.zi@,
{
    lemma_nats_injective(p1.zi@, p2.zi@);
}

/// A proof that `fold` produced is accepted by `verify` under the
/// schedule's length and the initial state it was folded from:
/// verification succeeds whenever folding succeeded with a matching
/// iteration count.
pub proof fn lemma_fold_then_verify(
    rule: StepRule,
    z0: Seq<u64>,
    schedule: Seq<PrivateInputSet>,
    p: RecursiveProof,
)
    requires
        z0.len() == rule.spec_arity(),
        p.steps == schedule.len(),
        p.z0@ == z0,
        p.zi@.len() == rule.spec_arity(),
    ensures
        spec_verify_ok(p, p.steps, z0),
{
}

/// Step-count invariant: a proof folded over a schedule carries the
/// schedule's length as its step count, so `verify` — whose contract
/// returns `IterationCountMismatch` for every count other than the
/// proof's — rejects every count other than the schedule's length.
pub proof fn lemma_step_count_mismatch(
    p: RecursiveProof,
    schedule: Seq<PrivateInputSet>,
    iteration_count: usize,
)
    requires
        p.steps == schedule.len(),
        iteration_count != schedule.len(),
    ensures
        iteration_count != p.steps,
        !spec_verify_ok(p, iteration_count, p.z0@),
{
}

/// Compression round-trip: for every proof that `verify` accepts, and a
/// key pair from one `setup`, `compress` accepts the proof, and
/// `verify_compressed` accepts its output under the same iteration count
/// and initial state, yielding the same final public state `verify`
/// yielded.
pub proof fn lemma_compression_round_trip(
    p: RecursiveProof,
    c: CompressedProof,
    pk: ProvingKey,
    vk: VerifyingKey,
    iteration_count: usize,
    z0: Seq<u64>,
)
    requires
        spec_verify_ok(p, iteration_count, z0),
        p.z0@.len() == pk.arity as nat,
        vk.arity == pk.arity,
        c.steps == p.steps,
        c.z0@ == p.z0@,
        c.zn@ == p.zi@,
    ensures
        spec_compressible(p, pk.arity),
        spec_verify_compressed_ok(c, iteration_count, z0),
        c.z0@.len() == vk.arity as nat,
        c.zn@ == p.zi@,
{
}

/// Zero-iteration boundary: the trace of an empty schedule is the
/// initial state itself, so `fold` on an empty schedule returns it
/// unchanged, without one step being evaluated.
pub proof fn lemma_zero_iterations(rule: StepRule, z0: Seq<u64>)
    ensures
        adders_of(Seq::<PrivateInputSet>::empty()).len() == 0,
        trace_nat(rule, nats(z0), adders_of(Seq::<PrivateInputSet>::empty())) == nats(z0),
{
    assert(adders_of(Seq::<PrivateInputSet>::empty()).len() == 0);
}

} // verus!
