//! What can go wrong when proof data is generated or searched.

use vstd::prelude::*;

verus! {

/// The ways in which generating proof data or searching for a key can fail.
#[derive(Clone, Copy, Debug, PartialEq, Eq, Structural)]
pub enum ProofError {
    /// The nonce is empty although the proof data must not be: there is
    /// nothing to repeat.
    InvalidInput,
    /// The step counter has reached the end of its range without a solution.
    Overflow,
}

} // verus!
