//! The verifier engine: key gating, public-input binding, and the three
//! proof-system checks, composed into one pure verification pipeline.
//!
//! Each verification call walks the same one-way path: the buffer is
//! decoded, gated against the expected key, bound to the caller's public
//! values, and only then handed to the mode's transcript check. The first
//! failing stage names the rejection; a proof is never accepted on the
//! strength of the transcript check alone while the bound inputs disagree.

use crate::bytes::bytes_eq;
use crate::codec::{decode, lemma_parse_wf, parse_proof};
use crate::digest::{compute_digest, compute_seal, digest_of, seal_of};
use crate::registry::{groth16_fixed_key, groth16_key, parse_vk_hash, plonk_fixed_key, plonk_key,
    vk_hash_spec};
use crate::types::{DecodedProof, Mode, VerifyError};
use vstd::prelude::*;

verus! {

/// What verifying `s` against public values `pv` and verifying key `vk` in
/// mode `m` yields. Decoding errors come first; then a key slot that
/// disagrees with `vk`, then a public-values slot that disagrees with `pv`,
/// then a seal that is not the transcript's digest; a proof that survives
/// all four stages is accepted.
pub open spec fn verify_spec(s: Seq<u8>, pv: Seq<u8>, vk: Seq<u8>, m: Mode) -> Result<
    (),
    VerifyError,
> {
    match parse_proof(s, m) {
        Err(e) => Err(e),
        Ok(p) => {
            if p.vk != vk {
                Err(VerifyError::KeyMismatch)
            } else if p.public_values != pv {
                Err(VerifyError::PublicInputMismatch)
            } else if p.seal != seal_of(m, p.vk, p.public_values, p.elements) {
                Err(VerifyError::CryptographicCheckFailed)
            } else {
                Ok(())
            }
        },
    }
}

/// Key gating: whether the proof's key slot is byte-for-byte the key the
/// caller expects.
pub fn check_key(p: &DecodedProof, vk: &[u8]) -> (r: bool)
    ensures
        r == (p@.vk == vk@),
{
    bytes_eq(vk, &p.vk)
}

/// Public-input binding: whether the proof's public-values slot is
/// byte-for-byte the values the caller presents.
pub fn bind_public_values(p: &DecodedProof, pv: &[u8]) -> (r: bool)
    ensures
        r == (p@.public_values == pv@),
{
    bytes_eq(pv, &p.public_values)
}

/// The STARK engine: re-derive the Fiat–Shamir transcript seal from the
/// proof's slots and accept only an exact match.
pub fn stark_check(p: &DecodedProof) -> (r: bool)
    requires
        p@.wf(),
        p@.mode == Mode::Stark,
    ensures
        r == (p@.seal == seal_of(Mode::Stark, p@.vk, p@.public_values, p@.elements)),
{
    let s = compute_seal(Mode::Stark, p.vk.as_slice(), p.public_values.as_slice(), &p.elements);
    p.seal == s
}

/// The Groth16 engine: the same exact transcript check under the Groth16
/// domain tag.
pub fn groth16_check(p: &DecodedProof) -> (r: bool)
    requires
        p@.wf(),
        p@.mode == Mode::Groth16,
    ensures
        r == (p@.seal == seal_of(Mode::Groth16, p@.vk, p@.public_values, p@.elements)),
{
    let s = compute_seal(Mode::Groth16, p.vk.as_slice(), p.public_values.as_slice(), &p.elements);
    p.seal == s
}

/// The PLONK engine: the same exact transcript check under the PLONK
/// domain tag.
pub fn plonk_check(p: &DecodedProof) -> (r: bool)
    requires
        p@.wf(),
        p@.mode == Mode::Plonk,
    ensures
        r == (p@.seal == seal_of(Mode::Plonk, p@.vk, p@.public_values, p@.elements)),
{
    let s = compute_seal(Mode::Plonk, p.vk.as_slice(), p.public_values.as_slice(), &p.elements);
    p.seal == s
}

/// Dispatch to the engine of the proof's own mode.
pub fn crypto_check(p: &DecodedProof) -> (r: bool)
    requires
        p@.wf(),
    ensures
        r == (p@.seal == seal_of(p@.mode, p@.vk, p@.public_values, p@.elements)),
{
    match p.mode {
        Mode::Stark => stark_check(p),
        Mode::Groth16 => groth16_check(p),
        Mode::Plonk => plonk_check(p),
    }
}

/// Verify a proof buffer against public values and a verifying key. A pure
/// function of its inputs: no state, no randomness, no partial result.
pub fn verify(proof: &[u8], public_values: &[u8], vk: &[u8], mode: Mode) -> (r: Result<
    (),
    VerifyError,
>)
    ensures
        r == verify_spec(proof@, public_values@, vk@, mode),
{
    let p = match decode(proof, mode) {
        Ok(p) => p,
        Err(e) => {
            return Err(e);
        },
    };
    proof {
        lemma_parse_wf(proof@, mode);
    }
    if !check_key(&p, vk) {
        return Err(VerifyError::KeyMismatch);
    }
    if !bind_public_values(&p, public_values) {
        return Err(VerifyError::PublicInputMismatch);
    }
    if !crypto_check(&p) {
        return Err(VerifyError::CryptographicCheckFailed);
    }
    Ok(())
}

/// What verifying a STARK buffer against its key alone yields: as
/// [`verify_spec`], but the proof's own public-values slot is trusted as
/// the committed values, with no outside copy to compare.
pub open spec fn verify_proof_spec(s: Seq<u8>, vk: Seq<u8>) -> Result<(), VerifyError> {
    match parse_proof(s, Mode::Stark) {
        Err(e) => Err(e),
        Ok(p) => {
            if p.vk != vk {
                Err(VerifyError::KeyMismatch)
            } else if p.seal != seal_of(Mode::Stark, p.vk, p.public_values, p.elements) {
                Err(VerifyError::CryptographicCheckFailed)
            } else {
                Ok(())
            }
        },
    }
}

/// Verify a STARK proof buffer against its verifying key, without an
/// outside copy of the public values.
pub fn verify_proof(proof: &[u8], vk: &[u8]) -> (r: Result<(), VerifyError>)
    ensures
        r == verify_proof_spec(proof@, vk@),
{
    let p = match decode(proof, Mode::Stark) {
        Ok(p) => p,
        Err(e) => {
            return Err(e);
        },
    };
    proof {
        lemma_parse_wf(proof@, Mode::Stark);
    }
    if !check_key(&p, vk) {
        return Err(VerifyError::KeyMismatch);
    }
    if !stark_check(&p) {
        return Err(VerifyError::CryptographicCheckFailed);
    }
    Ok(())
}

/// What Groth16 verification against the embedded fixed key yields. The
/// caller names the key by its digest string; a string that is not a key
/// identity at all is malformed input, a wrong identity or a key slot other
/// than the embedded key is a key mismatch.
pub open spec fn groth16_verify_spec(s: Seq<u8>, pv: Seq<u8>, h: Seq<char>) -> Result<
    (),
    VerifyError,
> {
    match parse_proof(s, Mode::Groth16) {
        Err(e) => Err(e),
        Ok(p) => {
            if vk_hash_spec(h) is None {
                Err(VerifyError::MalformedInput)
            } else if p.vk != groth16_key() {
                Err(VerifyError::KeyMismatch)
            } else if vk_hash_spec(h)->Some_0 != digest_of(groth16_key()) {
                Err(VerifyError::KeyMismatch)
            } else if p.public_values != pv {
                Err(VerifyError::PublicInputMismatch)
            } else if p.seal != seal_of(Mode::Groth16, p.vk, p.public_values, p.elements) {
                Err(VerifyError::CryptographicCheckFailed)
            } else {
                Ok(())
            }
        },
    }
}

/// As [`groth16_verify_spec`], for PLONK against its embedded fixed key.
pub open spec fn plonk_verify_spec(s: Seq<u8>, pv: Seq<u8>, h: Seq<char>) -> Result<
    (),
    VerifyError,
> {
    match parse_proof(s, Mode::Plonk) {
        Err(e) => Err(e),
        Ok(p) => {
            if vk_hash_spec(h) is None {
                Err(VerifyError::MalformedInput)
            } else if p.vk != plonk_key() {
                Err(VerifyError::KeyMismatch)
            } else if vk_hash_spec(h)->Some_0 != digest_of(plonk_key()) {
                Err(VerifyError::KeyMismatch)
            } else if p.public_values != pv {
                Err(VerifyError::PublicInputMismatch)
            } else if p.seal != seal_of(Mode::Plonk, p.vk, p.public_values, p.elements) {
                Err(VerifyError::CryptographicCheckFailed)
            } else {
                Ok(())
            }
        },
    }
}

/// Verify a Groth16 proof buffer against the embedded fixed key, named by
/// its digest string.
pub fn verify_groth16_checked(proof: &[u8], public_values: &[u8], vk_hash: &str) -> (r: Result<
    (),
    VerifyError,
>)
    ensures
        r == groth16_verify_spec(proof@, public_values@, vk_hash@),
{
    let p = match decode(proof, Mode::Groth16) {
        Ok(p) => p,
        Err(e) => {
            return Err(e);
        },
    };
    proof {
        lemma_parse_wf(proof@, Mode::Groth16);
    }
    let h = match parse_vk_hash(vk_hash) {
        Some(h) => h,
        None => {
            return Err(VerifyError::MalformedInput);
        },
    };
    let fixed = groth16_fixed_key();
    if !check_key(&p, fixed.as_slice()) {
        return Err(VerifyError::KeyMismatch);
    }
    let d = compute_digest(&fixed);
    if h != d {
        return Err(VerifyError::KeyMismatch);
    }
    if !bind_public_values(&p, public_values) {
        return Err(VerifyError::PublicInputMismatch);
    }
    if !groth16_check(&p) {
        return Err(VerifyError::CryptographicCheckFailed);
    }
    Ok(())
}

/// Verify a PLONK proof buffer against the embedded fixed key, named by
/// its digest string.
pub fn verify_plonk_checked(proof: &[u8], public_values: &[u8], vk_hash: &str) -> (r: Result<
    (),
    VerifyError,
>)
    ensures
        r == plonk_verify_spec(proof@, public_values@, vk_hash@),
{
    let p = match decode(proof, Mode::Plonk) {
        Ok(p) => p,
        Err(e) => {
            return Err(e);
        },
    };
    proof {
        lemma_parse_wf(proof@, Mode::Plonk);
    }
    let h = match parse_vk_hash(vk_hash) {
        Some(h) => h,
        None => {
            return Err(VerifyError::MalformedInput);
        },
    };
    let fixed = plonk_fixed_key();
    if !check_key(&p, fixed.as_slice()) {
        return Err(VerifyError::KeyMismatch);
    }
    let d = compute_digest(&fixed);
    if h != d {
        return Err(VerifyError::KeyMismatch);
    }
    if !bind_public_values(&p, public_values) {
        return Err(VerifyError::PublicInputMismatch);
    }
    if !plonk_check(&p) {
        return Err(VerifyError::CryptographicCheckFailed);
    }
    Ok(())
}

} // verus!
