//! The requirements of a proof, the data it is made over, and its validation.

use crate::digest::{as_slices, hash, sha3_256};
use crate::error::ProofError;
use crate::model::{cyclic, meets_difficulty, zero_padded, Requirements};
use crate::prover::ResourceProver;
use crate::score::{capped_score, leading_zero_bits, lemma_byte_leading_zeros};
use std::collections::VecDeque;
use vstd::prelude::*;

verus! {

/// Holds the prover requirements.
pub struct ResourceProof {
    min_size: usize,
    difficulty: u8,
}

impl View for ResourceProof {
    type V = Requirements;

    closed spec fn view(&self) -> Requirements {
        Requirements { min_size: self.min_size as nat, difficulty: self.difficulty }
    }
}

/// Whether two deques hold the same bytes in the same order.
fn same_bytes(left: &VecDeque<u8>, right: &VecDeque<u8>) -> (same: bool)
    ensures
        same == (left@ == right@),
{
    if left.len() != right.len() {
        return false;
    }
    let mut i: usize = 0;
    while i < left.len()
        invariant
            i <= left.len(),
            left.len() == right.len(),
            forall|j: int| 0 <= j < i ==> left@[j] == right@[j],
        decreases left.len() - i,
    {
        if left[i] != right[i] {
            return false;
        }
        i += 1;
    }
    assert(left@ =~= right@);
    true
}

/// Puts `count` zero bytes in front of `data`.
fn prepend_zeros(data: &mut VecDeque<u8>, count: u64)
    ensures
        final(data)@ == zero_padded(old(data)@, count as nat),
{
    let mut done: u64 = 0;
    assert(data@ =~= zero_padded(old(data)@, 0));
    while done < count
        invariant
            done <= count,
            data@ == zero_padded(old(data)@, done as nat),
        decreases count - done,
    {
        data.push_front(0u8);
        done += 1;
        assert(data@ =~= zero_padded(old(data)@, done as nat));
    }
}

impl ResourceProof {
    /// Configure a new prover.
    ///
    /// `min_size` is target data size in bytes. It may be small or large to
    /// test bandwidth (although it may be compressible).
    ///
    /// `difficulty` is the number of leading binary zeros required in the
    /// hash. Each extra zero doubles the difficulty.
    pub fn new(min_size: usize, difficulty: u8) -> (rp: ResourceProof)
        ensures
            rp@ == (Requirements { min_size: min_size as nat, difficulty }),
    {
        ResourceProof { min_size, difficulty }
    }

    /// Create the proof data with a given nonce: the bytes of the nonce in
    /// order, over and over, until the target size is reached.
    ///
    /// An empty nonce cannot be repeated: it is refused with `InvalidInput`,
    /// unless the target size is zero.
    pub fn create_proof_data(&self, nonce: &[u8]) -> (data: Result<VecDeque<u8>, ProofError>)
        ensures
            match data {
                Ok(bytes) => {
                    &&& nonce@.len() > 0 || self@.min_size == 0
                    &&& bytes@ == cyclic(nonce@, self@.min_size)
                    &&& bytes@.len() == self@.min_size
                    &&& self@.proof_data(nonce@) == Ok::<Seq<u8>, ProofError>(bytes@)
                },
                Err(e) => {
                    &&& nonce@.len() == 0 && self@.min_size > 0
                    &&& e == ProofError::InvalidInput
                    &&& self@.proof_data(nonce@) == Err::<Seq<u8>, ProofError>(e)
                },
            },
    {
        if nonce.len() == 0 && self.min_size > 0 {
            return Err(ProofError::InvalidInput);
        }
        let mut bytes: VecDeque<u8> = VecDeque::new();
        let mut i: usize = 0;
        while i < self.min_size
            invariant
                i <= self.min_size,
                self.min_size > 0 ==> nonce.len() > 0,
                bytes@ == cyclic(nonce@, i as nat),
            decreases self.min_size - i,
        {
            bytes.push_back(nonce[i % nonce.len()]);
            i += 1;
            assert(bytes@ =~= cyclic(nonce@, i as nat));
        }
        Ok(bytes)
    }

    /// Create a prover object. Requires a copy of the data (from
    /// `create_proof_data`) to be passed in.
    pub fn create_prover(&self, data: VecDeque<u8>) -> (prover: ResourceProver)
        ensures
            prover@ == self@.prover(data@),
    {
        ResourceProver::new(self.difficulty, data)
    }

    /// Validate the proof data and key (this is the number of zeros to be
    /// pushed onto the data).
    ///
    /// The received data is compared first; nothing is hashed where it
    /// differs from the data made of the nonce.
    pub fn validate_all(&self, nonce: &[u8], received_data: &VecDeque<u8>, key: u64) -> (valid:
        bool)
        ensures
            valid == self@.proof_valid(nonce@, received_data@, key as nat),
            valid == (self@.data_valid(nonce@, received_data@) && self@.key_valid(
                nonce@,
                key as nat,
            )),
    {
        let mut data = match self.create_proof_data(nonce) {
            Ok(bytes) => bytes,
            Err(_) => {
                return false;
            },
        };
        if !same_bytes(&data, received_data) {
            return false;
        }
        prepend_zeros(&mut data, key);
        self.check_hash(&data) >= self.difficulty
    }

    /// Validate the data for the given `nonce` and size data.
    pub fn validate_data(&self, nonce: &[u8], data: &VecDeque<u8>) -> (valid: bool)
        ensures
            valid == self@.data_valid(nonce@, data@),
    {
        match self.create_proof_data(nonce) {
            Ok(bytes) => same_bytes(&bytes, data),
            Err(_) => false,
        }
    }

    /// Validate the proof key (this must recreate the data, hence
    /// `validate_all` is faster when both must be checked).
    pub fn validate_proof(&self, nonce: &[u8], key: u64) -> (valid: bool)
        ensures
            valid == self@.key_valid(nonce@, key as nat),
    {
        let mut data = match self.create_proof_data(nonce) {
            Ok(bytes) => bytes,
            Err(_) => {
                return false;
            },
        };
        prepend_zeros(&mut data, key);
        self.check_hash(&data) >= self.difficulty
    }

    /// Counts the zero bits at the front of the SHA3-256 digest of `data`,
    /// saturating at 255.
    pub fn check_hash(&self, data: &VecDeque<u8>) -> (zeros: u8)
        ensures
            zeros == capped_score(sha3_256(data@)),
            forall|difficulty: u8| zeros >= difficulty <==> meets_difficulty(data@, difficulty),
    {
        ResourceProof::leading_zeros(&hash(&as_slices(data)))
    }

    /// Counts the zero bits at the front of `data`, saturating at 255: eight
    /// for each zero byte up to the first byte that is not zero, and the
    /// leading zero bits of that byte.
    pub fn leading_zeros(data: &[u8]) -> (zeros: u8)
        ensures
            zeros == capped_score(data@),
    {
        let mut zeros: u8 = 0;
        let mut i: usize = 0;
        assert(data@.skip(0) == data@);
        while i < data.len()
            invariant
                i <= data.len(),
                leading_zero_bits(data@) == 8 * i + leading_zero_bits(data@.skip(i as int)),
                zeros == if 8 * i <= 255 { 8 * i } else { 255 },
            decreases data.len() - i,
        {
            let bits: u32 = data[i].leading_zeros();
            proof {
                lemma_byte_leading_zeros(data@[i as int]);
            }
            assert(data@.skip(i as int)[0] == data@[i as int]);
            assert(data@.skip(i as int).skip(1) == data@.skip(i + 1));
            if bits < 8 {
                return zeros.saturating_add(bits as u8);
            }
            zeros = zeros.saturating_add(8);
            i += 1;
        }
        zeros
    }
}

} // verus!
