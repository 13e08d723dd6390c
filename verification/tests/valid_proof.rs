use resource_proof::ResourceProof;

#[test]
fn valid_proof() {
    for _ in 0..20 {
        let nonce = [rand::random::<u8>()];
        let rp = ResourceProof::new(1024, 3);
        let data = rp.create_proof_data(&nonce).unwrap();
        let proof = rp.create_prover(data.clone()).solve().unwrap();
        assert!(rp.validate_proof(&nonce, proof));
        assert!(rp.validate_data(&nonce, &data));
        assert!(rp.validate_all(&nonce, &data, proof));
    }
}

#[test]
fn valid_proof_for_every_small_difficulty() {
    for difficulty in 0..=8u8 {
        for min_size in [0usize, 1, 2, 33, 256] {
            let nonce = [rand::random::<u8>(), rand::random::<u8>(), difficulty];
            let rp = ResourceProof::new(min_size, difficulty);
            let data = rp.create_proof_data(&nonce).unwrap();
            let key = rp.create_prover(data.clone()).solve().unwrap();
            assert!(rp.validate_proof(&nonce, key));
            assert!(rp.validate_data(&nonce, &data));
            assert!(rp.validate_all(&nonce, &data, key));
        }
    }
}

#[test]
fn scenario_three_byte_nonce() {
    let nonce = [1u8, 5, 3];
    let rp = ResourceProof::new(1024, 3);
    let data = rp.create_proof_data(&nonce).unwrap();
    assert_eq!(data.len(), 1024);
    for (i, byte) in data.iter().enumerate() {
        assert_eq!(*byte, nonce[i % 3]);
    }
    let key = rp.create_prover(data.clone()).solve().unwrap();
    assert_eq!(key, 6);
    assert!(rp.validate_proof(&nonce, key));
    assert!(rp.validate_all(&nonce, &data, key));
}
