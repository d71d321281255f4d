//! The failure taxonomy of an IVC run.
//!
//! Every error aborts the run it belongs to: a folded proof is meaningless
//! if any stage failed, so there is no partial success and no retry.

use vstd::prelude::*;

verus! {

/// A failure of one stage of an IVC run.
///
/// `WitnessGenerationError` and `FoldingError` carry the index of the
/// folding step at which the run stopped.
#[derive(Clone, Copy, Debug, PartialEq, Eq, Structural)]
pub enum IvcError {
    /// The named curve cycle is not one the core supports.
    UnsupportedCurveCycle,
    /// The circuit artifact could not be read or parsed.
    ArtifactLoadError,
    /// A private-input set lacks a key the circuit declares.
    SchemaMismatch,
    /// `verify` was handed an iteration count other than the number of
    /// steps the proof was folded over: a caller error, failed fast.
    IterationCountMismatch,
    /// The witness generator rejected the inputs of the given step.
    WitnessGenerationError { step: usize },
    /// The folding engine signalled an inconsistency at the given step.
    FoldingError { step: usize },
    /// The recursive proof could not be compressed.
    CompressionError,
    /// A cryptographic check of a proof failed.
    VerificationError,
}

} // verus!
