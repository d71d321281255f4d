//! The sponge-parameter fixture.
//!
//! The signature scheme hashes with a Poseidon sponge whose round
//! constants and MDS matrix are a pure function of the field's modulus
//! bit-length and five parameters. Deriving the constants is the outside
//! crate's work; the parameters themselves — the one decision this core
//! owns — are fixed here, and the shell hands them to the derivation.

use vstd::prelude::*;

verus! {

/// The parameters a Poseidon sponge is derived from.
#[derive(Clone, Copy, Debug, PartialEq, Eq, Structural)]
pub struct SpongeParameters {
    /// Rounds in which the S-box is applied to the whole state.
    pub full_rounds: u64,
    /// Rounds in which the S-box is applied to one element.
    pub partial_rounds: u64,
    /// The S-box exponent.
    pub alpha: u64,
    /// Field elements absorbed per permutation.
    pub rate: usize,
    /// Field elements of internal state beyond the rate.
    pub capacity: usize,
    /// Candidate MDS matrices skipped during derivation.
    pub skip_matrices: u64,
}

/// The parameters the shipped runs derive their sponge with: eight full
/// rounds, sixty partial rounds, S-box exponent five, rate four,
/// capacity one, and no matrices skipped.
pub fn poseidon_sponge_parameters() -> (p: SpongeParameters)
    ensures
        p == (SpongeParameters {
            full_rounds: 8,
            partial_rounds: 60,
            alpha: 5,
            rate: 4,
            capacity: 1,
            skip_matrices: 0,
        }),
{
    SpongeParameters {
        full_rounds: 8,
        partial_rounds: 60,
        alpha: 5,
        rate: 4,
        capacity: 1,
        skip_matrices: 0,
    }
}

} // verus!
