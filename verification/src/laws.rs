//! What holds of every proof: general statements over the model, each
//! proved from the definitions that the executable functions' contracts use.

use crate::model::{meets_difficulty, zero_padded, ProverState, Requirements};
use vstd::prelude::*;

verus! {

/// Proof data exists for every nonce but an empty one with a required size
/// above zero, and has exactly the required size.
pub proof fn lemma_proof_data_has_required_size(req: Requirements, nonce: Seq<u8>)
    ensures
        req.proof_data(nonce) is Ok <==> nonce.len() > 0 || req.min_size == 0,
        req.proof_data(nonce) matches Ok(data) ==> data.len() == req.min_size,
{
}

/// Each byte of the proof data is the byte of the nonce at the same place,
/// counted round and round.
pub proof fn lemma_proof_data_repeats_nonce(req: Requirements, nonce: Seq<u8>, i: int)
    requires
        nonce.len() > 0,
        0 <= i < req.min_size,
    ensures
        req.proof_data(nonce) matches Ok(data) && data[i] == nonce[i % (nonce.len() as int)],
{
}

/// The proof data is a function of the nonce and the required size alone:
/// two sets of requirements of one size give one nonce the same data,
/// whatever their difficulties.
pub proof fn lemma_proof_data_is_deterministic(a: Requirements, b: Requirements, nonce: Seq<u8>)
    requires
        a.min_size == b.min_size,
    ensures
        a.proof_data(nonce) == b.proof_data(nonce),
{
}

/// At most one sequence of bytes is valid data for a nonce.
pub proof fn lemma_valid_data_is_unique(
    req: Requirements,
    nonce: Seq<u8>,
    first: Seq<u8>,
    second: Seq<u8>,
)
    requires
        req.data_valid(nonce, first),
        req.data_valid(nonce, second),
    ensures
        first == second,
{
}

/// Valid data in which one byte was changed is valid no more.
pub proof fn lemma_changed_byte_is_rejected(
    req: Requirements,
    nonce: Seq<u8>,
    data: Seq<u8>,
    index: int,
    byte: u8,
)
    requires
        req.data_valid(nonce, data),
        0 <= index < data.len(),
        byte != data[index],
    ensures
        !req.data_valid(nonce, data.update(index, byte)),
{
    assert(data.update(index, byte)[index] != data[index]);
}

/// A valid proof to whose data one byte was appended is rejected, with the
/// key unchanged.
pub proof fn lemma_extra_byte_is_rejected(
    req: Requirements,
    nonce: Seq<u8>,
    data: Seq<u8>,
    key: nat,
    byte: u8,
)
    requires
        req.proof_valid(nonce, data, key),
    ensures
        !req.data_valid(nonce, data.push(byte)),
        !req.proof_valid(nonce, data.push(byte), key),
{
    assert(data.push(byte).len() != data.len());
}

/// A proof is valid exactly if its data is valid and its key is valid.
pub proof fn lemma_proof_valid_is_both(req: Requirements, nonce: Seq<u8>, data: Seq<u8>, key: nat)
    ensures
        req.proof_valid(nonce, data, key) <==> req.data_valid(nonce, data) && req.key_valid(
            nonce,
            key,
        ),
{
}

/// A difficulty of zero is met by any data.
pub proof fn lemma_zero_difficulty_is_met(data: Seq<u8>)
    ensures
        meets_difficulty(data, 0),
{
}

/// Taking steps one after the other is taking them at once, and taking none
/// changes nothing.
pub proof fn lemma_steps_add_up(state: ProverState, first: nat, second: nat)
    ensures
        state.after(first).after(second) == state.after(first + second),
        state.after(0) == state,
{
    assert(zero_padded(zero_padded(state.data, first), second) =~= zero_padded(
        state.data,
        first + second,
    ));
    assert(zero_padded(state.data, 0) =~= state.data);
}

/// The data grows by one byte with each step, and by nothing else.
pub proof fn lemma_data_grows_with_steps(state: ProverState, steps: nat)
    ensures
        state.after(steps).data.len() == state.data.len() + steps,
        state.after(steps).count == state.count + steps,
        state.after(steps).difficulty == state.difficulty,
{
}

/// A search ends with one key at most: the least count at which the state is
/// solved.
pub proof fn lemma_found_key_is_least(state: ProverState, key: nat, other: nat)
    requires
        state.finds(key),
        other >= state.count,
        state.after((other - state.count) as nat).solved(),
    ensures
        key <= other,
        state.finds(other) ==> other == key,
{
}

/// The key that a search finds is accepted: where the search starts from the
/// proof data of a nonce with no step taken and ends with `key`, `key` is a
/// valid key for that nonce, and a valid proof together with the data.
pub proof fn lemma_found_key_is_valid(req: Requirements, nonce: Seq<u8>, data: Seq<u8>, key: nat)
    requires
        req.data_valid(nonce, data),
        req.prover(data).finds(key),
    ensures
        req.key_valid(nonce, key),
        req.proof_valid(nonce, data, key),
{
}

/// A key is valid for a nonce exactly if the search over the nonce's proof
/// data is solved after that many steps.
pub proof fn lemma_key_valid_is_replay(req: Requirements, nonce: Seq<u8>, key: nat)
    ensures
        req.key_valid(nonce, key) <==> (req.proof_data(nonce) matches Ok(data) && req.prover(
            data,
        ).after(key).solved()),
{
}

} // verus!
