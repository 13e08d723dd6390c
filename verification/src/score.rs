//! Scoring of a digest: the number of zero bits it starts with.

use vstd::prelude::*;

verus! {

/// Number of zero bits above the highest set bit of `byte`; eight for zero.
pub open spec fn byte_leading_zeros(byte: u8) -> nat {
    if byte >= 128 {
        0
    } else if byte >= 64 {
        1
    } else if byte >= 32 {
        2
    } else if byte >= 16 {
        3
    } else if byte >= 8 {
        4
    } else if byte >= 4 {
        5
    } else if byte >= 2 {
        6
    } else if byte >= 1 {
        7
    } else {
        8
    }
}

/// Number of zero bits at the front of `bytes`, read from the most significant
/// bit of the first byte on: eight for each zero byte before the first byte
/// that is not zero, and the leading zero bits of that byte. A sequence of
/// zero bytes alone scores eight times its length.
pub open spec fn leading_zero_bits(bytes: Seq<u8>) -> nat
    decreases bytes.len(),
{
    if bytes.len() == 0 {
        0
    } else if bytes[0] == 0 {
        8 + leading_zero_bits(bytes.skip(1))
    } else {
        byte_leading_zeros(bytes[0])
    }
}

/// The score that fits a byte: `leading_zero_bits` capped at 255.
pub open spec fn capped_score(bytes: Seq<u8>) -> nat {
    if leading_zero_bits(bytes) <= 255 {
        leading_zero_bits(bytes)
    } else {
        255
    }
}

/// What `u8::leading_zeros` returns is `byte_leading_zeros`.
pub proof fn lemma_byte_leading_zeros(byte: u8)
    ensures
        u8::leading_zeros(byte) == byte_leading_zeros(byte),
{
    let z: u8 = u8::leading_zeros(byte) as u8;
    let below: u8 = (7 - z) as u8;
    let at: u8 = (8 - z) as u8;
    assert(byte_leading_zeros(byte) == z as nat) by (bit_vector)
        requires
            z <= 8,
            below == (7 - z) as u8,
            at == (8 - z) as u8,
            byte == 0 <==> z == 8,
            z < 8 ==> (byte >> below) & 1u8 != 0u8,
            byte >> at == 0,
    ;
}

/// Bit `i` of `bytes`, counted from the most significant bit of the first
/// byte on: whether it is set.
pub open spec fn bit_at(bytes: Seq<u8>, i: int) -> bool
    recommends
        0 <= i < 8 * bytes.len(),
{
    (bytes[i / 8] >> ((7 - i % 8) as u8)) & 1u8 == 1u8
}

/// The bits of a byte above its highest set bit are clear, and the bit that
/// `byte_leading_zeros` stops at is set.
proof fn lemma_byte_bits(byte: u8, place: u8)
    requires
        place < 8,
    ensures
        place < byte_leading_zeros(byte) ==> (byte >> ((7 - place) as u8)) & 1u8 != 1u8,
        place == byte_leading_zeros(byte) ==> (byte >> ((7 - place) as u8)) & 1u8 == 1u8,
        byte == 0 <==> byte_leading_zeros(byte) == 8,
{
    let shift: u8 = (7 - place) as u8;
    assert(place < byte_leading_zeros(byte) ==> (byte >> shift) & 1u8 != 1u8) by (bit_vector)
        requires
            place < 8,
            shift == (7 - place) as u8,
    ;
    assert(place == byte_leading_zeros(byte) ==> (byte >> shift) & 1u8 == 1u8) by (bit_vector)
        requires
            place < 8,
            shift == (7 - place) as u8,
    ;
}

/// The score counts the zero bits at the front: it is no more than the
/// number of bits, every bit before it is clear, and the bit at it, where
/// there is one, is set.
pub proof fn lemma_score_counts_leading_zero_bits(bytes: Seq<u8>)
    ensures
        leading_zero_bits(bytes) <= 8 * bytes.len(),
        forall|i: int| 0 <= i < leading_zero_bits(bytes) ==> !bit_at(bytes, i),
        leading_zero_bits(bytes) < 8 * bytes.len() ==> bit_at(
            bytes,
            leading_zero_bits(bytes) as int,
        ),
    decreases bytes.len(),
{
    if bytes.len() == 0 {
    } else if bytes[0] == 0 {
        let rest = bytes.skip(1);
        lemma_score_counts_leading_zero_bits(rest);
        assert forall|i: int| 0 <= i < leading_zero_bits(bytes) implies !bit_at(bytes, i) by {
            if i < 8 {
                lemma_byte_bits(bytes[0], i as u8);
            } else {
                assert(!bit_at(rest, i - 8));
                assert(rest[(i - 8) / 8] == bytes[i / 8]);
            }
        }
        if leading_zero_bits(bytes) < 8 * bytes.len() {
            let at = leading_zero_bits(rest) as int;
            assert(bit_at(rest, at));
            assert(rest[at / 8] == bytes[(at + 8) / 8]);
        }
    } else {
        let score = byte_leading_zeros(bytes[0]);
        lemma_byte_bits(bytes[0], 0);
        assert(score < 8);
        assert forall|i: int| 0 <= i < score implies !bit_at(bytes, i) by {
            lemma_byte_bits(bytes[0], i as u8);
        }
        lemma_byte_bits(bytes[0], score as u8);
    }
}

/// Only the score has that property: a number of bits, all clear, that ends
/// with the sequence or before a set bit, is the score.
pub proof fn lemma_score_is_the_only_such_count(bytes: Seq<u8>, count: nat)
    requires
        count <= 8 * bytes.len(),
        forall|i: int| 0 <= i < count ==> !bit_at(bytes, i),
        count < 8 * bytes.len() ==> bit_at(bytes, count as int),
    ensures
        count == leading_zero_bits(bytes),
{
    lemma_score_counts_leading_zero_bits(bytes);
}

/// Capping the score at 255 loses nothing for any difficulty.
pub proof fn lemma_capped_score_decides(bytes: Seq<u8>, difficulty: u8)
    ensures
        capped_score(bytes) >= difficulty <==> leading_zero_bits(bytes) >= difficulty,
{
}

} // verus!
