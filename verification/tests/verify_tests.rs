//! End-to-end verification scenarios across the three proof systems.

use succinct_verifier::codec::build_proof;
use succinct_verifier::engine::verify;
use succinct_verifier::fixture::key_commitment_hex;
use succinct_verifier::registry::{groth16_fixed_key, plonk_fixed_key};
use succinct_verifier::report::{
    verify_report, verify_groth16, verify_plonk, verify_stark, verify_stark_with_public_inputs,
    VerificationResult,
};
use succinct_verifier::types::{Mode, VerifyError};

/// The fibonacci guest's declared input, 1000, as little-endian bytes.
fn fib_public_values() -> Vec<u8> {
    vec![0xe8, 0x03, 0x00, 0x00]
}

fn stark_vk() -> Vec<u8> {
    vec![0x10, 0x20, 0x30, 0x40, 0x55]
}

fn stark_proof() -> Vec<u8> {
    let elems: Vec<u64> = vec![5, 6, 7];
    build_proof(Mode::Stark, &stark_vk(), &fib_public_values(), &elems).unwrap()
}

#[test]
fn determinism_identical_results() {
    let proof = stark_proof();
    let pv = fib_public_values();
    let vk = stark_vk();
    let r1 = verify(&proof, &pv, &vk, Mode::Stark);
    let r2 = verify(&proof, &pv, &vk, Mode::Stark);
    assert_eq!(r1, r2);
    let b1 = verify_stark_with_public_inputs(&proof, &pv, &vk);
    let b2 = verify_stark_with_public_inputs(&proof, &pv, &vk);
    assert_eq!(b1, b2);
    assert!(b1);
}

#[test]
fn stark_accepts_genuine_proof() {
    let proof = stark_proof();
    assert_eq!(verify(&proof, &fib_public_values(), &stark_vk(), Mode::Stark), Ok(()));
    assert!(verify_stark_with_public_inputs(&proof, &fib_public_values(), &stark_vk()));
    assert!(verify_stark(&proof, &stark_vk()));
}

#[test]
fn stark_rejects_swapped_public_values() {
    let proof = stark_proof();
    // The same proof bytes, but the presented values now encode 1001.
    let other = vec![0xe9, 0x03, 0x00, 0x00];
    assert_eq!(
        verify(&proof, &other, &stark_vk(), Mode::Stark),
        Err(VerifyError::PublicInputMismatch)
    );
    assert!(!verify_stark_with_public_inputs(&proof, &other, &stark_vk()));
}

#[test]
fn key_gating_rejects_other_key() {
    let proof = stark_proof();
    let other_vk = vec![0x10, 0x20, 0x30, 0x40, 0x56];
    assert_eq!(
        verify(&proof, &fib_public_values(), &other_vk, Mode::Stark),
        Err(VerifyError::KeyMismatch)
    );
    assert!(!verify_stark(&proof, &other_vk));
}

fn groth16_proof(pv: &[u8]) -> Vec<u8> {
    let elems: Vec<u64> = vec![11, 12, 13, 14, 15, 16, 17, 18];
    build_proof(Mode::Groth16, &groth16_fixed_key(), pv, &elems).unwrap()
}

#[test]
fn groth16_accepts_under_embedded_key() {
    let pv = fib_public_values();
    let proof = groth16_proof(&pv);
    let hash = key_commitment_hex(&groth16_fixed_key());
    assert!(verify_groth16(&proof, &pv, &hash));
}

#[test]
fn groth16_rejects_wrong_key_identity() {
    let pv = fib_public_values();
    let proof = groth16_proof(&pv);
    let wrong = key_commitment_hex(&plonk_fixed_key());
    assert!(!verify_groth16(&proof, &pv, &wrong));
}

#[test]
fn groth16_proof_rejected_under_plonk_key() {
    let pv = fib_public_values();
    let proof = groth16_proof(&pv);
    let plonk_hash = key_commitment_hex(&plonk_fixed_key());
    assert!(!verify_plonk(&proof, &pv, &plonk_hash));
    // Checked against the PLONK key directly, the buffer is malformed for
    // that mode: it carries the Groth16 tag.
    assert_eq!(
        verify(&proof, &pv, &plonk_fixed_key(), Mode::Plonk),
        Err(VerifyError::MalformedInput)
    );
}

#[test]
fn plonk_accepts_under_embedded_key() {
    let pv = fib_public_values();
    let elems: Vec<u64> = vec![1, 2, 3, 4, 5, 6, 7, 8, 9, 10, 11, 12];
    let proof = build_proof(Mode::Plonk, &plonk_fixed_key(), &pv, &elems).unwrap();
    let hash = key_commitment_hex(&plonk_fixed_key());
    assert!(verify_plonk(&proof, &pv, &hash));
}

#[test]
fn zero_length_rejected_all_modes() {
    let empty: Vec<u8> = Vec::new();
    let pv = fib_public_values();
    for mode in [Mode::Stark, Mode::Groth16, Mode::Plonk] {
        assert_eq!(
            verify(&empty, &pv, &stark_vk(), mode),
            Err(VerifyError::MalformedInput)
        );
    }
    assert!(!verify_stark(&empty, &stark_vk()));
    let hash = key_commitment_hex(&groth16_fixed_key());
    assert!(!verify_groth16(&empty, &pv, &hash));
    assert!(!verify_plonk(&empty, &pv, &hash));
}

#[test]
fn short_inputs_rejected() {
    let pv = fib_public_values();
    for len in 0..23usize {
        let short = vec![0x5au8; len];
        for mode in [Mode::Stark, Mode::Groth16, Mode::Plonk] {
            assert_eq!(
                verify(&short, &pv, &stark_vk(), mode),
                Err(VerifyError::MalformedInput)
            );
        }
    }
}

#[test]
fn single_byte_flips_rejected() {
    let proof = stark_proof();
    let pv = fib_public_values();
    let vk = stark_vk();
    assert_eq!(verify(&proof, &pv, &vk, Mode::Stark), Ok(()));
    for i in 0..proof.len() {
        for mask in [0x01u8, 0xff] {
            let mut tampered = proof.clone();
            tampered[i] ^= mask;
            assert_ne!(verify(&tampered, &pv, &vk, Mode::Stark), Ok(()), "byte {} survived", i);
        }
    }
}

#[test]
fn report_normalizes_outcomes() {
    let proof = stark_proof();
    let pv = fib_public_values();
    let vk = stark_vk();
    assert_eq!(verify_report(&proof, &pv, &vk, Mode::Stark), VerificationResult::Accepted);
    let other_pv = vec![0u8; 4];
    assert_eq!(
        verify_report(&proof, &other_pv, &vk, Mode::Stark),
        VerificationResult::RejectedPublicInputMismatch
    );
    let other_vk = vec![9u8];
    assert_eq!(
        verify_report(&proof, &pv, &other_vk, Mode::Stark),
        VerificationResult::RejectedKeyMismatch
    );
    let empty: Vec<u8> = Vec::new();
    assert_eq!(
        verify_report(&empty, &pv, &vk, Mode::Stark),
        VerificationResult::RejectedMalformedProof
    );
    // An unsupported version tag also reads as a malformed proof at the
    // normalized surface.
    let mut old_version = proof.clone();
    old_version[1] = 2;
    assert_eq!(
        verify_report(&old_version, &pv, &vk, Mode::Stark),
        VerificationResult::RejectedMalformedProof
    );
}

#[test]
fn tampered_seal_is_cryptographic_failure() {
    let proof = stark_proof();
    let pv = fib_public_values();
    let vk = stark_vk();
    let mut tampered = proof.clone();
    let last = tampered.len() - 1;
    tampered[last] ^= 0x01;
    assert_eq!(
        verify(&tampered, &pv, &vk, Mode::Stark),
        Err(VerifyError::CryptographicCheckFailed)
    );
}
