//! Resource proofs: a cheap way for a peer to check that a machine spent a
//! calibrated amount of CPU work on a calibrated amount of data before it is
//! admitted to a network.
//!
//! A [`ResourceProof`] fixes the size of the proof data and the difficulty of
//! the search. The data is derived from a nonce, a [`ResourceProver`] searches
//! for the number of zero bytes that must be put in front of the data so that
//! its SHA3-256 digest starts with enough zero bits, and the validators replay
//! that number.

pub mod digest;
pub mod error;
pub mod laws;
pub mod model;
pub mod prover;
pub mod resource_proof;
pub mod score;

pub use digest::nonce_from_seed;
pub use error::ProofError;
pub use model::{ProverState, Requirements};
pub use prover::ResourceProver;
pub use resource_proof::ResourceProof;
