//! The SHA3-256 digest, computed by `tiny_keccak`.

use std::collections::VecDeque;
use tiny_keccak::{Hasher, Sha3};
use vstd::prelude::*;

verus! {

/// The SHA3-256 digest of a byte sequence: the 32 bytes that `tiny_keccak`'s
/// `Sha3::v256` hasher gives out after it has absorbed exactly `data`.
pub uninterp spec fn sha3_256(data: Seq<u8>) -> Seq<u8>;

/// Calls `tiny_keccak::Sha3::v256`, `Hasher::update` once for each of the two
/// slices, and `Hasher::finalize` into 32 bytes.
///
/// Trusted: the hasher absorbs a stream, so the digest is that of the first
/// slice followed by the second, and depends on nothing but those bytes.
#[verifier::external_body]
pub(crate) fn hash(data: &(&[u8], &[u8])) -> (digest: [u8; 32])
    ensures
        digest@ == sha3_256(data.0@ + data.1@),
{
    let mut hasher = Sha3::v256();
    let mut res = [0u8; 32];
    hasher.update(data.0);
    hasher.update(data.1);
    hasher.finalize(&mut res);
    res
}

/// Calls `VecDeque::as_slices`.
///
/// Trusted: the two slices hold, in order, the contents of the deque.
#[verifier::external_body]
pub(crate) fn as_slices(data: &VecDeque<u8>) -> (parts: (&[u8], &[u8]))
    ensures
        parts.0@ + parts.1@ == data@,
{
    data.as_slices()
}

/// Hashes the given seed into a nonce for use in proofs: its SHA3-256 digest.
pub fn nonce_from_seed(seed: &[u8]) -> (nonce: [u8; 32])
    ensures
        nonce@ == sha3_256(seed@),
{
    let nothing: [u8; 0] = [];
    let rest: &[u8] = &nothing;
    assert(seed@ + rest@ =~= seed@);
    hash(&(seed, rest))
}

} // verus!
