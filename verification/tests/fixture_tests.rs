//! Interchange fixtures, key identities, and mode names.

use succinct_verifier::fixture::{key_commitment_hex, proof_fixture};
use succinct_verifier::digest::compute_digest;
use succinct_verifier::registry::{fixed_key, groth16_fixed_key, parse_vk_hash, plonk_fixed_key};
use succinct_verifier::types::Mode;

#[test]
fn fixture_fields_hex() {
    let proof_bytes = vec![0x01u8, 0xab];
    let pv = vec![0xffu8];
    let vk = vec![0x00u8, 0x10, 0xfe];
    let f = proof_fixture(&proof_bytes, &pv, &vk, "5.0.0", Mode::Stark);
    assert_eq!(f.proof, "01ab");
    assert_eq!(f.public_inputs, "ff");
    assert_eq!(f.vkey, "0010fe");
    assert_eq!(f.zkm_version, "5.0.0");
    assert_eq!(f.mode, "stark");
    assert_eq!(f.vkey_hash, key_commitment_hex(&vk));
    assert!(f.vkey_hash.starts_with("0x"));
    assert_eq!(f.vkey_hash.len(), 18);
}

#[test]
fn fixture_nonstark_vkey_is_placeholder() {
    let f = proof_fixture(&[1u8], &[2u8], &[3u8], "1", Mode::Groth16);
    assert_eq!(f.vkey, "0x");
    assert_eq!(f.mode, "groth16");
    let g = proof_fixture(&[1u8], &[2u8], &[3u8], "1", Mode::Plonk);
    assert_eq!(g.vkey, "0x");
    assert_eq!(g.mode, "plonk");
}

#[test]
fn key_identity_parses_back_to_digest() {
    let vk = groth16_fixed_key();
    let h = key_commitment_hex(&vk);
    let parsed = parse_vk_hash(&h).unwrap();
    assert_eq!(parsed, compute_digest(&vk));
}

#[test]
fn distinct_keys_have_distinct_identities() {
    assert_ne!(
        key_commitment_hex(&groth16_fixed_key()),
        key_commitment_hex(&plonk_fixed_key())
    );
}

#[test]
fn parse_vk_hash_rejects_bad_strings() {
    assert_eq!(parse_vk_hash(""), None);
    assert_eq!(parse_vk_hash("abc"), None);
    assert_eq!(parse_vk_hash("0x123"), None);
    assert_eq!(parse_vk_hash("0x123456789abcdefg"), None);
    assert_eq!(parse_vk_hash("1234567890abcdef12"), None);
    assert_eq!(parse_vk_hash("0x0123456789abcdeF"), Some(0x0123456789abcdef));
    assert_eq!(parse_vk_hash("0x0000000000000000"), Some(0));
}

#[test]
fn registry_fixed_keys() {
    assert_eq!(fixed_key(Mode::Groth16), Some(groth16_fixed_key()));
    assert_eq!(fixed_key(Mode::Plonk), Some(plonk_fixed_key()));
    assert_eq!(fixed_key(Mode::Stark), None);
    assert_ne!(groth16_fixed_key(), plonk_fixed_key());
}

#[test]
fn mode_names_and_parsing() {
    assert_eq!(Mode::parse("stark"), Some(Mode::Stark));
    assert_eq!(Mode::parse("groth16"), Some(Mode::Groth16));
    assert_eq!(Mode::parse("plonk"), Some(Mode::Plonk));
    assert_eq!(Mode::parse("snark"), None);
    assert_eq!(Mode::parse(""), None);
    assert_eq!(Mode::parse("Stark"), None);
    for mode in [Mode::Stark, Mode::Groth16, Mode::Plonk] {
        assert_eq!(Mode::parse(mode.name()), Some(mode));
    }
}

#[test]
fn mode_tags_are_distinct() {
    assert_ne!(Mode::Stark.tag(), Mode::Groth16.tag());
    assert_ne!(Mode::Groth16.tag(), Mode::Plonk.tag());
    assert_ne!(Mode::Stark.tag(), Mode::Plonk.tag());
}
