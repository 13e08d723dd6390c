use resource_proof::{nonce_from_seed, ResourceProof};
use std::collections::VecDeque;

#[test]
fn leading_zeros_of_nothing_is_zero() {
    assert_eq!(ResourceProof::leading_zeros(&[]), 0);
}

#[test]
fn leading_zeros_of_one_byte() {
    assert_eq!(ResourceProof::leading_zeros(&[0x80]), 0);
    assert_eq!(ResourceProof::leading_zeros(&[0xff]), 0);
    assert_eq!(ResourceProof::leading_zeros(&[0x40]), 1);
    assert_eq!(ResourceProof::leading_zeros(&[0x7f]), 1);
    assert_eq!(ResourceProof::leading_zeros(&[0x20]), 2);
    assert_eq!(ResourceProof::leading_zeros(&[0x10]), 3);
    assert_eq!(ResourceProof::leading_zeros(&[0x08]), 4);
    assert_eq!(ResourceProof::leading_zeros(&[0x05]), 5);
    assert_eq!(ResourceProof::leading_zeros(&[0x02]), 6);
    assert_eq!(ResourceProof::leading_zeros(&[0x01]), 7);
    assert_eq!(ResourceProof::leading_zeros(&[0x00]), 8);
}

#[test]
fn leading_zeros_matches_std_for_every_byte() {
    for byte in 0..=255u8 {
        assert_eq!(u32::from(ResourceProof::leading_zeros(&[byte])), byte.leading_zeros());
    }
}

#[test]
fn leading_zeros_stops_at_the_first_byte_that_is_not_zero() {
    assert_eq!(ResourceProof::leading_zeros(&[0, 0, 5]), 21);
    assert_eq!(ResourceProof::leading_zeros(&[0, 0, 5, 0, 0]), 21);
    assert_eq!(ResourceProof::leading_zeros(&[0, 0x80, 0]), 8);
    assert_eq!(ResourceProof::leading_zeros(&[1, 0, 0]), 7);
    assert_eq!(ResourceProof::leading_zeros(&[0, 0]), 16);
}

#[test]
fn leading_zeros_saturates_at_255() {
    let mut digest = [0u8; 32];
    assert_eq!(ResourceProof::leading_zeros(&digest), 255);
    digest[31] = 1;
    assert_eq!(ResourceProof::leading_zeros(&digest), 255);
    digest[31] = 2;
    assert_eq!(ResourceProof::leading_zeros(&digest), 254);
    digest[31] = 0x80;
    assert_eq!(ResourceProof::leading_zeros(&digest), 248);
    assert_eq!(ResourceProof::leading_zeros(&[0u8; 40]), 255);
}

#[test]
fn check_hash_scores_the_sha3_256_digest() {
    let rp = ResourceProof::new(0, 0);
    // SHA3-256 of the empty input starts with 0xa7.
    assert_eq!(rp.check_hash(&VecDeque::new()), 0);
    assert_eq!(rp.check_hash(&VecDeque::from(vec![1u8, 200, 230])), 17);
    assert_eq!(rp.check_hash(&VecDeque::from(vec![0u8, 226, 22])), 14);
    assert_eq!(rp.check_hash(&VecDeque::from(vec![1u8, 206, 94])), 15);
}

#[test]
fn check_hash_ignores_how_the_deque_is_laid_out() {
    let rp = ResourceProof::new(0, 0);
    let mut data: VecDeque<u8> = VecDeque::with_capacity(8);
    data.push_back(200);
    data.push_back(230);
    data.push_front(1);
    assert!(!data.as_slices().0.is_empty());
    assert!(!data.as_slices().1.is_empty());
    assert_eq!(rp.check_hash(&data), 17);
    data.make_contiguous();
    assert!(data.as_slices().1.is_empty());
    assert_eq!(rp.check_hash(&data), 17);
}

#[test]
fn nonce_from_seed_is_the_sha3_256_digest() {
    assert_eq!(
        nonce_from_seed(b"A long long time ago.."),
        [
            165, 56, 55, 62, 12, 208, 157, 133, 5, 21, 247, 23, 146, 232, 248, 203, 66, 174, 95,
            110, 250, 19, 122, 5, 199, 4, 206, 220, 180, 188, 16, 105,
        ]
    );
    assert_eq!(
        nonce_from_seed(b""),
        [
            0xa7, 0xff, 0xc6, 0xf8, 0xbf, 0x1e, 0xd7, 0x66, 0x51, 0xc1, 0x47, 0x56, 0xa0, 0x61,
            0xd6, 0x62, 0xf5, 0x80, 0xff, 0x4d, 0xe4, 0x3b, 0x49, 0xfa, 0x82, 0xd8, 0x0a, 0x4b,
            0x80, 0xf8, 0x43, 0x4a,
        ]
    );
    assert_eq!(
        nonce_from_seed(b"hello world"),
        [
            0x64, 0x4b, 0xcc, 0x7e, 0x56, 0x43, 0x73, 0x04, 0x09, 0x99, 0xaa, 0xc8, 0x9e, 0x76,
            0x22, 0xf3, 0xca, 0x71, 0xfb, 0xa1, 0xd9, 0x72, 0xfd, 0x94, 0xa3, 0x1c, 0x3b, 0xfb,
            0xf2, 0x4e, 0x39, 0x38,
        ]
    );
}
