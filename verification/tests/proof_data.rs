use resource_proof::{ProofError, ResourceProof};
use std::collections::VecDeque;

#[test]
fn data_has_exactly_the_required_size() {
    for min_size in [0usize, 1, 2, 3, 4, 7, 100, 1024, 4097] {
        for difficulty in [0u8, 3, 255] {
            let rp = ResourceProof::new(min_size, difficulty);
            let data = rp.create_proof_data(&[9, 8, 7]).unwrap();
            assert_eq!(data.len(), min_size);
        }
    }
}

#[test]
fn data_repeats_the_nonce_in_order() {
    let rp = ResourceProof::new(8, 1);
    let data = rp.create_proof_data(&[1, 5, 3]).unwrap();
    assert_eq!(data, VecDeque::from(vec![1u8, 5, 3, 1, 5, 3, 1, 5]));
    let one = ResourceProof::new(4, 1).create_proof_data(&[0xfe]).unwrap();
    assert_eq!(one, VecDeque::from(vec![0xfeu8; 4]));
}

#[test]
fn data_shorter_than_the_nonce_is_its_prefix() {
    let rp = ResourceProof::new(2, 0);
    let data = rp.create_proof_data(&[10, 20, 30, 40]).unwrap();
    assert_eq!(data, VecDeque::from(vec![10u8, 20]));
}

#[test]
fn data_is_the_same_on_every_call() {
    let nonce = [200u8, 0, 17, 17];
    let rp = ResourceProof::new(513, 4);
    let first = rp.create_proof_data(&nonce).unwrap();
    let second = rp.create_proof_data(&nonce).unwrap();
    assert_eq!(first, second);
    let other_difficulty = ResourceProof::new(513, 9).create_proof_data(&nonce).unwrap();
    assert_eq!(first, other_difficulty);
}

#[test]
fn zero_size_gives_empty_data() {
    let rp = ResourceProof::new(0, 5);
    assert_eq!(rp.create_proof_data(&[1, 2, 3]), Ok(VecDeque::new()));
    assert_eq!(rp.create_proof_data(&[]), Ok(VecDeque::new()));
}

#[test]
fn empty_nonce_is_invalid_input() {
    let rp = ResourceProof::new(1, 5);
    assert_eq!(rp.create_proof_data(&[]), Err(ProofError::InvalidInput));
    let large = ResourceProof::new(1024, 0);
    assert_eq!(large.create_proof_data(&[]), Err(ProofError::InvalidInput));
}

#[test]
fn empty_nonce_validates_nothing() {
    let rp = ResourceProof::new(4, 0);
    assert!(!rp.validate_data(&[], &VecDeque::new()));
    assert!(!rp.validate_data(&[], &VecDeque::from(vec![0u8; 4])));
    assert!(!rp.validate_proof(&[], 0));
    assert!(!rp.validate_all(&[], &VecDeque::new(), 0));
}
