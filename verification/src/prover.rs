//! The search for a proof key, one step at a time.

use crate::digest::{as_slices, hash, sha3_256};
use crate::error::ProofError;
use crate::model::ProverState;
use crate::resource_proof::ResourceProof;
use crate::score::capped_score;
use std::collections::VecDeque;
use vstd::arithmetic::power2::{lemma2_to64, lemma_pow2_strictly_increases, pow2};
use vstd::bits::{lemma_u64_pow2_no_overflow, lemma_u64_shl_is_mul};
use vstd::prelude::*;

verus! {

/// Object used to compute a result.
pub struct ResourceProver {
    difficulty: u8,
    count: u64,
    data: VecDeque<u8>,
}

impl View for ResourceProver {
    type V = ProverState;

    closed spec fn view(&self) -> ProverState {
        ProverState { difficulty: self.difficulty, count: self.count as nat, data: self.data@ }
    }
}

impl ResourceProver {
    /// A prover over `data` that has taken no step yet.
    pub(crate) fn new(difficulty: u8, data: VecDeque<u8>) -> (prover: ResourceProver)
        ensures
            prover@ == (ProverState { difficulty, count: 0, data: data@ }),
    {
        ResourceProver { difficulty, count: 0, data }
    }

    /// The step count of a prover stays in the range of `u64`.
    pub proof fn lemma_count_in_range(&self)
        ensures
            self@.count <= u64::MAX,
    {
    }

    /// The expected number of steps is `pow(2, difficulty)`; where that is
    /// out of range, from a difficulty of 64 on, `u64::MAX` stands for it.
    /// The process is probabilistic, so the actual number of steps required
    /// may be more or less.
    ///
    /// The length of each step depends on data size. Total expected time is
    /// proportional to `length * pow(2, difficulty)`.
    pub fn expected_steps(&self) -> (steps: u64)
        ensures
            self@.difficulty < 64 ==> steps == pow2(self@.difficulty as nat),
            self@.difficulty >= 64 ==> steps == u64::MAX && pow2(self@.difficulty as nat)
                > u64::MAX,
    {
        if self.difficulty < 64 {
            let shift: u64 = self.difficulty as u64;
            proof {
                lemma_u64_pow2_no_overflow(shift as nat);
                lemma_u64_shl_is_mul(1, shift);
            }
            1u64 << shift
        } else {
            proof {
                lemma2_to64();
                if self.difficulty > 64 {
                    lemma_pow2_strictly_increases(64, self.difficulty as nat);
                }
            }
            u64::MAX
        }
    }

    /// Try one step; if successful return the proof result.
    ///
    /// The data is hashed first. If its digest has enough leading zero bits,
    /// the count of steps taken so far is the key, and nothing changes. If
    /// not, one zero byte goes in front of the data and the count goes up by
    /// one. Once the count has reached `u64::MAX` no further step can be
    /// taken: a state that is not solved is then left as it is, and
    /// `Overflow` is returned.
    ///
    /// (This does not invalidate the prover. Continuing might find another
    /// valid solution.)
    pub fn try_step(&mut self) -> (step: Result<Option<u64>, ProofError>)
        ensures
            old(self)@.solved() ==> {
                &&& step matches Ok(Some(key))
                &&& key == old(self)@.count
                &&& final(self)@ == old(self)@
            },
            !old(self)@.solved() && old(self)@.count < u64::MAX ==> {
                &&& step matches Ok(None)
                &&& final(self)@ == old(self)@.after(1)
            },
            !old(self)@.solved() && old(self)@.count == u64::MAX ==> {
                &&& step matches Err(ProofError::Overflow)
                &&& final(self)@ == old(self)@
            },
            old(self)@.difficulty == 0 ==> {
                &&& step matches Ok(Some(key))
                &&& key == old(self)@.count
            },
    {
        if self.check_hash() >= self.difficulty {
            return Ok(Some(self.count));
        }
        if self.count == u64::MAX {
            return Err(ProofError::Overflow);
        }
        self.data.push_front(0u8);
        self.count += 1;
        assert(self@ =~= old(self)@.after(1));
        Ok(None)
    }

    /// Keep stepping until a solution is found. Expected time can be
    /// calculated roughly (see `expected_steps`) but there is no upper bound
    /// (besides `u64::MAX`).
    ///
    /// The key is the count of the first solved state from this one on. Where
    /// none is solved up to a count of `u64::MAX`, the search ends there with
    /// `Overflow`.
    pub fn solve(&mut self) -> (key: Result<u64, ProofError>)
        ensures
            match key {
                Ok(found) => {
                    &&& old(self)@.finds(found as nat)
                    &&& final(self)@ == old(self)@.after((found - old(self)@.count) as nat)
                },
                Err(e) => {
                    &&& e == ProofError::Overflow
                    &&& old(self)@.unsolved_for((u64::MAX - old(self)@.count + 1) as nat)
                    &&& final(self)@ == old(self)@.after((u64::MAX - old(self)@.count) as nat)
                },
            },
            key is Err <==> old(self)@.unsolved_for((u64::MAX - old(self)@.count + 1) as nat),
            old(self)@.solved() ==> {
                &&& key matches Ok(found)
                &&& found == old(self)@.count
                &&& final(self)@ == old(self)@
            },
    {
        assert(old(self)@.after(0) =~= old(self)@);
        loop
            invariant
                old(self)@.after(0) == old(self)@,
                self@.count >= old(self)@.count,
                self@ == old(self)@.after((self@.count - old(self)@.count) as nat),
                old(self)@.unsolved_for((self@.count - old(self)@.count) as nat),
            decreases u64::MAX - self.count,
        {
            match self.try_step() {
                Ok(Some(found)) => {
                    return Ok(found);
                },
                Ok(None) => {
                    assert(self@ =~= old(self)@.after((self@.count - old(self)@.count) as nat));
                },
                Err(e) => {
                    return Err(e);
                },
            }
        }
    }

    /// Counts the zero bits at the front of the SHA3-256 digest of the data as
    /// it stands, saturating at 255.
    pub fn check_hash(&self) -> (zeros: u8)
        ensures
            zeros == capped_score(sha3_256(self@.data)),
            zeros >= self@.difficulty <==> self@.solved(),
    {
        ResourceProof::leading_zeros(&hash(&as_slices(&self.data)))
    }
}

} // verus!
