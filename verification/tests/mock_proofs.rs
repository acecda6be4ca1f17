use mock_relayer::mock_proofs::{deterministic_proof_from, generate_deterministic_mock_proof, generate_mock_proof};

#[test]
fn deterministic_proof_is_repeatable() {
    let first = generate_deterministic_mock_proof("seed-A");
    let second = generate_deterministic_mock_proof("seed-A");
    assert_eq!(first.proof_data, second.proof_data);
    assert_eq!(first.public_signals, second.public_signals);
}

#[test]
fn deterministic_proof_differs_between_seeds() {
    let a = generate_deterministic_mock_proof("seed-A");
    let b = generate_deterministic_mock_proof("seed-B");
    assert_ne!(a.proof_data, b.proof_data);
    assert_ne!(a.public_signals, b.public_signals);
}

#[test]
fn deterministic_proof_from_hash_has_exact_words() {
    let proof = deterministic_proof_from(0x8000_0000_0000_0001);
    assert_eq!(
        proof.proof_data,
        [
            0x8000_0000_0000_0001,
            2,
            0x8000_0000_0000_0003,
            0x8000_0000_0000_0005,
            0x8000_0000_0000_0007,
            0x8000_0000_0000_000b,
            0x8000_0000_0000_000d,
            0x8000_0000_0000_0011,
        ]
    );
    assert_eq!(
        proof.public_signals,
        vec![
            format!("0x{:064x}", 0x8000_0000_0000_0001u64),
            format!("0x{:064x}", 0x8000_0000_0000_0013u64),
            format!("0x{:064x}", 0x8000_0000_0000_0017u64),
        ]
    );
    assert_eq!(
        proof.public_signals[0],
        "0x0000000000000000000000000000000000000000000000008000000000000001"
    );
}

#[test]
fn random_proof_has_three_padded_signals() {
    let proof = generate_mock_proof();
    assert_eq!(proof.public_signals.len(), 3);
    for signal in &proof.public_signals {
        assert_eq!(signal.len(), 66);
        assert!(signal.starts_with("0x000000000000000000000000000000000000000000000000"));
        assert!(signal[2..].chars().all(|c| c.is_ascii_digit() || ('a'..='f').contains(&c)));
    }
}
