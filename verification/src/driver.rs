//! The run driver: a state machine over the stages of one folding run.
//!
//! The folding engine's own work — deriving parameters, evaluating the
//! witness generator, accumulating the proof — happens outside this
//! core. The driver owns the schedule and initial state, says which
//! engine action comes next, and advances one stage at a time as each is
//! reported done. Steps are strictly sequential: the action for step
//! `i + 1` is never handed out before step `i` is folded, and a run with
//! an empty schedule never hands out a fold action at all.

use vstd::prelude::*;

use crate::circuit::StepRule;
use crate::errors::IvcError;
use crate::inputs::{all_wf, check_schedule, schedule_has_rule_keys, PrivateInputSet};

verus! {

/// Where a run stands.
#[derive(Clone, Copy, Debug, PartialEq, Eq, Structural)]
pub enum Phase {
    /// The circuit artifact is not loaded and no parameters exist.
    Unloaded,
    /// Public parameters are derived; folding has not begun.
    ParametersReady,
    /// Steps up to `next_step` are folded; `next_step` is not.
    Folding { next_step: usize },
    /// Every scheduled step is folded.
    Folded,
    /// The folded proof passed verification.
    Verified,
}

/// The next thing to ask of the folding engine.
#[derive(Clone, Copy, Debug, PartialEq, Eq, Structural)]
pub enum Action {
    /// Derive the public parameters from the loaded artifact.
    DeriveParameters,
    /// Fold step `index`, consuming that step's private-input set.
    FoldStep { index: usize },
    /// Verify the folded proof over this many iterations.
    VerifyProof { iteration_count: usize },
    /// The run is complete.
    Done,
}

/// The driver of one run.
pub struct FoldingDriver {
    phase: Phase,
    schedule: Vec<PrivateInputSet>,
    z0: Vec<u64>,
}

impl FoldingDriver {
    /// The stage the run stands at.
    pub closed spec fn spec_phase(&self) -> Phase {
        self.phase
    }

    pub closed spec fn spec_schedule(&self) -> Seq<PrivateInputSet> {
        self.schedule@
    }

    pub closed spec fn spec_z0(&self) -> Seq<u64> {
        self.z0@
    }

    /// How many folding steps the run has.
    pub open spec fn steps(&self) -> nat {
        self.spec_schedule().len()
    }

    /// A folding position always lies inside the schedule.
    pub open spec fn wf(&self) -> bool {
        match self.spec_phase() {
            Phase::Folding { next_step } => next_step < self.steps(),
            _ => true,
        }
    }

    /// Start a run over a schedule already checked against the circuit's
    /// declared keys: a schedule missing a key is refused here, before
    /// any engine work happens.
    pub fn new(rule: &StepRule, schedule: Vec<PrivateInputSet>, z0: Vec<u64>) -> (r: Result<
        FoldingDriver,
        IvcError,
    >)
        requires
            all_wf(schedule@),
            z0@.len() == rule.spec_arity(),
        ensures
            match r {
                Ok(d) => {
                    &&& schedule_has_rule_keys(*rule, schedule@)
                    &&& d.wf()
                    &&& d.spec_phase() == Phase::Unloaded
                    &&& d.spec_schedule() == schedule@
                    &&& d.spec_z0() == z0@
                },
                Err(e) => e == IvcError::SchemaMismatch && !schedule_has_rule_keys(
                    *rule,
                    schedule@,
                ),
            },
    {
        match check_schedule(rule, &schedule) {
            Ok(()) => Ok(FoldingDriver { phase: Phase::Unloaded, schedule, z0 }),
            Err(e) => Err(e),
        }
    }

    /// The engine action the run waits on.
    pub fn next_action(&self) -> (a: Action)
        requires
            self.wf(),
        ensures
            a == match self.spec_phase() {
                Phase::Unloaded => Action::DeriveParameters,
                Phase::ParametersReady => if self.steps() == 0 {
                    Action::VerifyProof { iteration_count: 0 }
                } else {
                    Action::FoldStep { index: 0 }
                },
                Phase::Folding { next_step } => Action::FoldStep { index: next_step },
                Phase::Folded => Action::VerifyProof {
                    iteration_count: self.spec_schedule().len() as usize,
                },
                Phase::Verified => Action::Done,
            },
    {
        match self.phase {
            Phase::Unloaded => Action::DeriveParameters,
            Phase::ParametersReady => {
                if self.schedule.len() == 0 {
                    Action::VerifyProof { iteration_count: 0 }
                } else {
                    Action::FoldStep { index: 0 }
                }
            },
            Phase::Folding { next_step } => Action::FoldStep { index: next_step },
            Phase::Folded => Action::VerifyProof { iteration_count: self.schedule.len() },
            Phase::Verified => Action::Done,
        }
    }

    /// The private-input set of one step, for the engine's witness
    /// generator.
    pub fn step_inputs(&self, index: usize) -> (r: &PrivateInputSet)
        requires
            index < self.steps(),
        ensures
            *r == self.spec_schedule()[index as int],
    {
        &self.schedule[index]
    }

    /// The run's initial public state.
    pub fn initial_state(&self) -> (r: &Vec<u64>)
        ensures
            r@ == self.spec_z0(),
    {
        &self.z0
    }

    /// The iteration count the proof must be verified over.
    pub fn iteration_count(&self) -> (n: usize)
        ensures
            n == self.steps(),
    {
        self.schedule.len()
    }

    /// The engine derived the public parameters.
    pub fn parameters_derived(&mut self)
        requires
            old(self).spec_phase() == Phase::Unloaded,
        ensures
            final(self).spec_phase() == Phase::ParametersReady,
            final(self).wf(),
            final(self).spec_schedule() == old(self).spec_schedule(),
            final(self).spec_z0() == old(self).spec_z0(),
    {
        self.phase = Phase::ParametersReady;
    }

    /// The engine folded the next step. An empty schedule moves the run
    /// straight past folding: no step is ever reported, or asked for.
    pub fn step_folded(&mut self)
        requires
            old(self).wf(),
            old(self).spec_phase() == Phase::ParametersReady && old(self).steps() > 0 || old(
                self,
            ).spec_phase() matches Phase::Folding { next_step },
        ensures
            final(self).wf(),
            final(self).spec_schedule() == old(self).spec_schedule(),
            final(self).spec_z0() == old(self).spec_z0(),
            final(self).spec_phase() == match old(self).spec_phase() {
                Phase::ParametersReady => if old(self).steps() == 1 {
                    Phase::Folded
                } else {
                    Phase::Folding { next_step: 1 }
                },
                Phase::Folding { next_step } => if next_step + 1 == old(self).steps() {
                    Phase::Folded
                } else {
                    Phase::Folding { next_step: (next_step + 1) as usize }
                },
                _ => old(self).spec_phase(),
            },
    {
        let n = self.schedule.len();
        match self.phase {
            Phase::ParametersReady => {
                if n == 1 {
                    self.phase = Phase::Folded;
                } else {
                    self.phase = Phase::Folding { next_step: 1 };
                }
            },
            Phase::Folding { next_step } => {
                if next_step + 1 == n {
                    self.phase = Phase::Folded;
                } else {
                    self.phase = Phase::Folding { next_step: next_step + 1 };
                }
            },
            _ => {
                proof {
                    assert(false);
                }
            },
        }
    }

    /// A run whose schedule is empty skips folding entirely.
    pub fn folding_skipped(&mut self)
        requires
            old(self).spec_phase() == Phase::ParametersReady,
            old(self).steps() == 0,
        ensures
            final(self).wf(),
            final(self).spec_phase() == Phase::Folded,
            final(self).spec_schedule() == old(self).spec_schedule(),
            final(self).spec_z0() == old(self).spec_z0(),
    {
        self.phase = Phase::Folded;
    }

    /// The engine verified the folded proof.
    pub fn proof_verified(&mut self)
        requires
            old(self).spec_phase() == Phase::Folded,
        ensures
            final(self).wf(),
            final(self).spec_phase() == Phase::Verified,
            final(self).spec_schedule() == old(self).spec_schedule(),
            final(self).spec_z0() == old(self).spec_z0(),
    {
        self.phase = Phase::Verified;
    }
}

} // verus!
