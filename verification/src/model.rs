//! The mathematical model: proof data, requirements and the search, as plain
//! values that the contracts of the executable functions speak of.

use crate::digest::sha3_256;
use crate::error::ProofError;
use crate::score::leading_zero_bits;
use vstd::prelude::*;

verus! {

/// `nonce` repeated in order, wrapping around, until `len` bytes are reached.
pub open spec fn cyclic(nonce: Seq<u8>, len: nat) -> Seq<u8>
    recommends
        len > 0 ==> nonce.len() > 0,
{
    Seq::new(len, |i: int| nonce[i % (nonce.len() as int)])
}

/// `count` zero bytes followed by `data`.
pub open spec fn zero_padded(data: Seq<u8>, count: nat) -> Seq<u8> {
    Seq::new(count, |i: int| 0u8) + data
}

/// Whether the SHA3-256 digest of `data` starts with at least `difficulty`
/// zero bits.
pub open spec fn meets_difficulty(data: Seq<u8>, difficulty: u8) -> bool {
    leading_zero_bits(sha3_256(data)) >= difficulty
}

/// What a proof has to meet.
pub struct Requirements {
    /// Size of the proof data in bytes.
    pub min_size: nat,
    /// Number of leading zero bits that the digest of a proof must have.
    pub difficulty: u8,
}

/// A search as plain values: what is asked for, how many steps were taken,
/// and the bytes that the next step will hash.
#[verifier::ext_equal]
pub struct ProverState {
    /// Number of leading zero bits that the digest must have.
    pub difficulty: u8,
    /// Number of zero bytes put in front of the data so far.
    pub count: nat,
    /// The data, with those zero bytes in front of it.
    pub data: Seq<u8>,
}

impl Requirements {
    /// The proof data for `nonce`: the nonce repeated up to the required
    /// size. An empty nonce has none, unless the required size is zero.
    pub open spec fn proof_data(self, nonce: Seq<u8>) -> Result<Seq<u8>, ProofError> {
        if nonce.len() == 0 && self.min_size > 0 {
            Err(ProofError::InvalidInput)
        } else {
            Ok(cyclic(nonce, self.min_size))
        }
    }

    /// Whether `data` is exactly the proof data for `nonce`.
    pub open spec fn data_valid(self, nonce: Seq<u8>, data: Seq<u8>) -> bool {
        self.proof_data(nonce) == Ok::<Seq<u8>, ProofError>(data)
    }

    /// Whether the proof data for `nonce`, with `key` zero bytes in front of
    /// it, meets the difficulty.
    pub open spec fn key_valid(self, nonce: Seq<u8>, key: nat) -> bool {
        match self.proof_data(nonce) {
            Ok(data) => meets_difficulty(zero_padded(data, key), self.difficulty),
            Err(_) => false,
        }
    }

    /// Whether `data` and `key` together are a proof for `nonce`.
    pub open spec fn proof_valid(self, nonce: Seq<u8>, data: Seq<u8>, key: nat) -> bool {
        self.data_valid(nonce, data) && self.key_valid(nonce, key)
    }

    /// The search over `data` before its first step.
    pub open spec fn prover(self, data: Seq<u8>) -> ProverState {
        ProverState { difficulty: self.difficulty, count: 0, data }
    }
}

impl ProverState {
    /// Whether the data as it stands meets the difficulty.
    pub open spec fn solved(self) -> bool {
        meets_difficulty(self.data, self.difficulty)
    }

    /// The state after `steps` more zero bytes were put in front of the data.
    pub open spec fn after(self, steps: nat) -> ProverState {
        ProverState {
            difficulty: self.difficulty,
            count: self.count + steps,
            data: zero_padded(self.data, steps),
        }
    }

    /// Whether none of the next `steps` states, this one included, is solved.
    pub open spec fn unsolved_for(self, steps: nat) -> bool {
        forall|k: nat| k < steps ==> !(#[trigger] self.after(k)).solved()
    }

    /// Whether a search from this state on ends with `key`: the count of the
    /// first solved state, this one included.
    pub open spec fn finds(self, key: nat) -> bool {
        &&& key >= self.count
        &&& self.unsolved_for((key - self.count) as nat)
        &&& self.after((key - self.count) as nat).solved()
    }
}

} // verus!
