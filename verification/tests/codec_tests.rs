//! Structural decoding: every defect yields its typed error, and a built
//! buffer decodes back to exactly its parts.

use succinct_verifier::codec::{build_proof, decode};
use succinct_verifier::types::{Mode, VerifyError, FIELD_MODULUS, PROOF_VERSION};

fn sample_parts() -> (Vec<u8>, Vec<u8>, Vec<u64>) {
    (vec![1, 2, 3], vec![0xe8, 0x03, 0x00, 0x00], vec![40, 50, 60, 70])
}

fn sample_proof() -> Vec<u8> {
    let (vk, pv, elems) = sample_parts();
    build_proof(Mode::Stark, &vk, &pv, &elems).unwrap()
}

#[test]
fn decode_roundtrip_fields() {
    let (vk, pv, elems) = sample_parts();
    let raw = sample_proof();
    let p = decode(&raw, Mode::Stark).unwrap();
    assert_eq!(p.version, PROOF_VERSION);
    assert_eq!(p.mode, Mode::Stark);
    assert_eq!(p.vk, vk);
    assert_eq!(p.public_values, pv);
    assert_eq!(p.elements, elems);
}

#[test]
fn version_tag_checked() {
    let mut raw = sample_proof();
    raw[0] = 0;
    raw[1] = 2;
    assert_eq!(decode(&raw, Mode::Stark).err(), Some(VerifyError::VersionIncompatible));
}

#[test]
fn mode_tag_checked() {
    let raw = sample_proof();
    assert_eq!(decode(&raw, Mode::Groth16).err(), Some(VerifyError::MalformedInput));
    assert_eq!(decode(&raw, Mode::Plonk).err(), Some(VerifyError::MalformedInput));
}

#[test]
fn element_count_checked() {
    // A Groth16 buffer must carry exactly eight elements; retagging a
    // four-element buffer as Groth16 leaves the count wrong.
    let mut raw = sample_proof();
    raw[2] = 2;
    assert_eq!(decode(&raw, Mode::Groth16).err(), Some(VerifyError::MalformedInput));
}

#[test]
fn element_range_checked() {
    let (vk, pv, _) = sample_parts();
    let elems: Vec<u64> = vec![7];
    let raw = build_proof(Mode::Stark, &vk, &pv, &elems).unwrap();
    // The lone element sits just before the 8-byte seal; overwrite it with
    // a value at the field modulus.
    let mut bad = raw.clone();
    let pos = bad.len() - 16;
    let modulus_bytes = FIELD_MODULUS.to_be_bytes();
    bad[pos..pos + 8].copy_from_slice(&modulus_bytes);
    assert_eq!(decode(&bad, Mode::Stark).err(), Some(VerifyError::MalformedInput));
    // One below the modulus is structurally fine again.
    let mut ok = raw.clone();
    let below = (FIELD_MODULUS - 1).to_be_bytes();
    ok[pos..pos + 8].copy_from_slice(&below);
    assert!(decode(&ok, Mode::Stark).is_ok());
}

#[test]
fn length_mismatch_checked() {
    let raw = sample_proof();
    let mut truncated = raw.clone();
    truncated.pop();
    assert_eq!(decode(&truncated, Mode::Stark).err(), Some(VerifyError::MalformedInput));
    let mut extended = raw.clone();
    extended.push(0);
    assert_eq!(decode(&extended, Mode::Stark).err(), Some(VerifyError::MalformedInput));
}

#[test]
fn min_len_boundary() {
    // 22 bytes is under the structural minimum in every mode.
    let short = vec![0u8; 22];
    assert_eq!(decode(&short, Mode::Stark).err(), Some(VerifyError::MalformedInput));
    // 23 zero bytes reach the version check, which rejects version 0.
    let zeros = vec![0u8; 23];
    assert_eq!(decode(&zeros, Mode::Stark).err(), Some(VerifyError::VersionIncompatible));
}

#[test]
fn build_proof_rejects_bad_parts() {
    let (vk, pv, _) = sample_parts();
    // STARK needs at least one element.
    let none: Vec<u64> = Vec::new();
    assert!(build_proof(Mode::Stark, &vk, &pv, &none).is_none());
    // Groth16 needs exactly eight.
    let seven: Vec<u64> = vec![1, 2, 3, 4, 5, 6, 7];
    assert!(build_proof(Mode::Groth16, &vk, &pv, &seven).is_none());
    // PLONK needs exactly twelve.
    let eleven: Vec<u64> = vec![1, 2, 3, 4, 5, 6, 7, 8, 9, 10, 11];
    assert!(build_proof(Mode::Plonk, &vk, &pv, &eleven).is_none());
    // Elements must lie below the field modulus.
    let out_of_range: Vec<u64> = vec![FIELD_MODULUS];
    assert!(build_proof(Mode::Stark, &vk, &pv, &out_of_range).is_none());
}
