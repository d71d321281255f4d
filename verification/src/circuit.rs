//! Step-circuit shapes and the arithmetic model of the additive ones.
//!
//! A step circuit maps the current public state vector and one private-input
//! set to the next public state vector. The two additive shapes are modelled
//! exactly, so the core can recompute a run's expected final state; circuits
//! whose step function only the external witness generator can evaluate are
//! carried as `External`, with their arity and declared private-input keys.

use vstd::prelude::*;

verus! {

/// The shape of one step circuit.
#[derive(Clone, Debug)]
pub enum StepRule {
    /// Two public inputs `[a, b]`, one private input `adder`;
    /// one step produces `[a + adder, a + b]`.
    AdditiveTwo,
    /// Three public inputs `[a, b, c]`, one private input `adder`;
    /// one step produces `[a + b + adder, a + b + c + adder, a + b + c]`.
    AdditiveThree,
    /// A circuit the core cannot evaluate itself: only its public arity
    /// and the private-input keys it declares are known.
    External { arity: usize, private_keys: Vec<String> },
}

impl StepRule {
    /// The length of the public state vector, fixed per circuit.
    pub open spec fn spec_arity(&self) -> nat {
        match self {
            StepRule::AdditiveTwo => 2,
            StepRule::AdditiveThree => 3,
            StepRule::External { arity, .. } => *arity as nat,
        }
    }

    pub fn arity(&self) -> (n: usize)
        ensures
            n as nat == self.spec_arity(),
    {
        match self {
            StepRule::AdditiveTwo => 2,
            StepRule::AdditiveThree => 3,
            StepRule::External { arity, .. } => *arity,
        }
    }

    /// Whether the core can evaluate the step function itself.
    pub open spec fn modeled(&self) -> bool {
        match self {
            StepRule::AdditiveTwo => true,
            StepRule::AdditiveThree => true,
            StepRule::External { .. } => false,
        }
    }

    pub fn is_modeled(&self) -> (r: bool)
        ensures
            r == self.modeled(),
    {
        match self {
            StepRule::AdditiveTwo => true,
            StepRule::AdditiveThree => true,
            StepRule::External { .. } => false,
        }
    }

    /// The private-input keys the circuit declares, one entry per key.
    pub open spec fn spec_private_keys(&self) -> Seq<Seq<char>> {
        match self {
            StepRule::AdditiveTwo => seq!["adder"@],
            StepRule::AdditiveThree => seq!["adder"@],
            StepRule::External { private_keys, .. } => Seq::new(
                private_keys@.len(),
                |i: int| private_keys@[i]@,
            ),
        }
    }
}

/// A state vector as unbounded naturals, the form the step arithmetic
/// is stated in.
pub open spec fn nats(s: Seq<u64>) -> Seq<nat> {
    s.map_values(|x: u64| x as nat)
}

/// Every component of the state lies in the `u64` range the core
/// represents field values in.
pub open spec fn fits_u64(s: Seq<nat>) -> bool {
    forall|i: int| 0 <= i < s.len() ==> s[i] <= u64::MAX as nat
}

/// One step of an additive circuit, over unbounded naturals.
/// For an `External` rule the state is left as it is: the core holds no
/// model of such a step.
pub open spec fn step_nat(rule: StepRule, z: Seq<nat>, adder: nat) -> Seq<nat>
    recommends
        rule.modeled(),
        z.len() == rule.spec_arity(),
{
    match rule {
        StepRule::AdditiveTwo => seq![z[0] + adder, z[0] + z[1]],
        StepRule::AdditiveThree => seq![
            z[0] + z[1] + adder,
            z[0] + z[1] + z[2] + adder,
            z[0] + z[1] + z[2],
        ],
        StepRule::External { .. } => z,
    }
}

/// The state after all steps of `adders` have been applied to `z0`,
/// one step per entry, in order.
pub open spec fn trace_nat(rule: StepRule, z0: Seq<nat>, adders: Seq<nat>) -> Seq<nat>
    decreases adders.len(),
{
    if adders.len() == 0 {
        z0
    } else {
        step_nat(rule, trace_nat(rule, z0, adders.drop_last()), adders.last())
    }
}

/// Every state of the run, the initial one included, fits in `u64` values.
pub open spec fn trace_fits(rule: StepRule, z0: Seq<nat>, adders: Seq<nat>) -> bool {
    forall|k: int| 0 <= k <= adders.len() ==> fits_u64(#[trigger] trace_nat(rule, z0, adders.take(k)))
}

/// State vectors are equal exactly when their unbounded forms are.
pub proof fn lemma_nats_injective(a: Seq<u64>, b: Seq<u64>)
    ensures
        (nats(a) == nats(b)) <==> (a == b),
{
    if nats(a) == nats(b) {
        assert(nats(a).len() == a.len());
        assert(nats(b).len() == b.len());
        assert(a.len() == b.len());
        assert forall|j: int| 0 <= j < a.len() implies a[j] == b[j] by {
            assert(nats(a)[j] == nats(b)[j]);
        }
        assert(a =~= b);
    }
    if a == b {
        assert(nats(a) =~= nats(b));
    }
}

/// The first component of an additive step dominates the adder, so an
/// adder too large for a `u64` forces the step out of range.
pub proof fn lemma_step_adder_bound(rule: StepRule, z: Seq<nat>, adder: nat)
    requires
        rule.modeled(),
        z.len() == rule.spec_arity(),
    ensures
        step_nat(rule, z, adder).len() > 0,
        step_nat(rule, z, adder)[0] >= adder,
{
}

/// The public state vector's length is fixed per circuit: every state
/// of a trace has the circuit's arity.
pub proof fn lemma_trace_arity(rule: StepRule, z0: Seq<nat>, adders: Seq<nat>)
    requires
        z0.len() == rule.spec_arity(),
    ensures
        trace_nat(rule, z0, adders).len() == rule.spec_arity(),
    decreases adders.len(),
{
    if adders.len() > 0 {
        lemma_trace_arity(rule, z0, adders.drop_last());
    }
}

/// One step of an additive circuit on `u64` state, checked: `None` exactly
/// when some component of the next state would not fit in a `u64`.
pub fn step_values(rule: &StepRule, z: &Vec<u64>, adder: u64) -> (r: Option<Vec<u64>>)
    requires
        rule.modeled(),
        z@.len() == rule.spec_arity(),
    ensures
        ({
            let out = step_nat(*rule, nats(z@), adder as nat);
            match r {
                Some(v) => fits_u64(out) && nats(v@) =~= out,
                None => !fits_u64(out),
            }
        }),
{
    let max: u128 = u64::MAX as u128;
    match rule {
        StepRule::AdditiveTwo => {
            let a = z[0];
            let b = z[1];
            let o0: u128 = a as u128 + adder as u128;
            let o1: u128 = a as u128 + b as u128;
            if o0 <= max && o1 <= max {
                let v = vec![o0 as u64, o1 as u64];
                proof {
                    let out = step_nat(*rule, nats(z@), adder as nat);
                    assert(nats(z@)[0] == a as nat);
                    assert(nats(z@)[1] == b as nat);
                    assert(nats(v@) =~= out);
                }
                Some(v)
            } else {
                proof {
                    let out = step_nat(*rule, nats(z@), adder as nat);
                    assert(nats(z@)[0] == a as nat);
                    assert(nats(z@)[1] == b as nat);
                    if o0 > max {
                        assert(out[0] > u64::MAX as nat);
                    } else {
                        assert(out[1] > u64::MAX as nat);
                    }
                }
                None
            }
        },
        StepRule::AdditiveThree => {
            let a = z[0];
            let b = z[1];
            let c = z[2];
            let o0: u128 = a as u128 + b as u128 + adder as u128;
            let o1: u128 = a as u128 + b as u128 + c as u128 + adder as u128;
            let o2: u128 = a as u128 + b as u128 + c as u128;
            if o0 <= max && o1 <= max && o2 <= max {
                let v = vec![o0 as u64, o1 as u64, o2 as u64];
                proof {
                    let out = step_nat(*rule, nats(z@), adder as nat);
                    assert(nats(z@)[0] == a as nat);
                    assert(nats(z@)[1] == b as nat);
                    assert(nats(z@)[2] == c as nat);
                    assert(nats(v@) =~= out);
                }
                Some(v)
            } else {
                proof {
                    let out = step_nat(*rule, nats(z@), adder as nat);
                    assert(nats(z@)[0] == a as nat);
                    assert(nats(z@)[1] == b as nat);
                    assert(nats(z@)[2] == c as nat);
                    if o0 > max {
                        assert(out[0] > u64::MAX as nat);
                    } else if o1 > max {
                        assert(out[1] > u64::MAX as nat);
                    } else {
                        assert(out[2] > u64::MAX as nat);
                    }
                }
                None
            }
        },
        StepRule::External { .. } => {
            // excluded by the precondition: no model of such a step exists
            proof {
                assert(false);
            }
            None
        },
    }
}

} // verus!
