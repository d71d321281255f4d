//! Orchestration core for an incremental-verifiable-computation (IVC) run.
//!
//! The crate models the data that a recursive folding run is built from —
//! the curve cycle, the per-step private-input sets, the public state
//! vector — and the driver that sequences a run: build the input schedule,
//! fold one step per scheduled input set, verify the folded proof against
//! an independently recomputed final state, then compress and re-verify.
//! The folding engine itself (witness generation, proof accumulation) is an
//! external collaborator; the contracts here pin down everything the core
//! decides around it.

pub mod circuit;
pub mod curve;
pub mod driver;
pub mod eddsa;
pub mod errors;
pub mod folding;
pub mod inputs;
pub mod laws;
pub mod numeric;
pub mod scenario;
pub mod sponge;
