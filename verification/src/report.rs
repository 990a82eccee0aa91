//! The result reporter: normalizes the engines' outcomes into one result
//! surface, and the boolean entry points a foreign-function boundary
//! forwards raw byte buffers to.

use crate::engine::{groth16_verify_spec, plonk_verify_spec, verify, verify_groth16_checked,
    verify_plonk_checked, verify_proof, verify_proof_spec, verify_spec};
use crate::types::{Mode, VerifyError};
use vstd::prelude::*;

verus! {

/// The normalized outcome of one verification call: exactly one variant
/// per call, never partial. An unsupported version tag surfaces as a
/// malformed proof at this collapsed surface; the richer taxonomy stays
/// available from the engine itself.
#[derive(Clone, Copy, PartialEq, Eq, Structural, Debug)]
pub enum VerificationResult {
    Accepted,
    RejectedMalformedProof,
    RejectedKeyMismatch,
    RejectedPublicInputMismatch,
    RejectedCryptographicCheck,
}

/// How an engine outcome reads at the normalized surface.
pub open spec fn report_spec(r: Result<(), VerifyError>) -> VerificationResult {
    match r {
        Ok(_) => VerificationResult::Accepted,
        Err(VerifyError::MalformedInput) => VerificationResult::RejectedMalformedProof,
        Err(VerifyError::VersionIncompatible) => VerificationResult::RejectedMalformedProof,
        Err(VerifyError::KeyMismatch) => VerificationResult::RejectedKeyMismatch,
        Err(VerifyError::PublicInputMismatch) => VerificationResult::RejectedPublicInputMismatch,
        Err(VerifyError::CryptographicCheckFailed)
            => VerificationResult::RejectedCryptographicCheck,
    }
}

/// Normalize an engine outcome.
pub fn report(r: &Result<(), VerifyError>) -> (v: VerificationResult)
    ensures
        v == report_spec(*r),
{
    match r {
        Ok(_) => VerificationResult::Accepted,
        Err(VerifyError::MalformedInput) => VerificationResult::RejectedMalformedProof,
        Err(VerifyError::VersionIncompatible) => VerificationResult::RejectedMalformedProof,
        Err(VerifyError::KeyMismatch) => VerificationResult::RejectedKeyMismatch,
        Err(VerifyError::PublicInputMismatch) => VerificationResult::RejectedPublicInputMismatch,
        Err(VerifyError::CryptographicCheckFailed)
            => VerificationResult::RejectedCryptographicCheck,
    }
}

/// Verify and report the normalized outcome.
pub fn verify_report(proof: &[u8], public_values: &[u8], vk: &[u8], mode: Mode) -> (v:
    VerificationResult)
    ensures
        v == report_spec(verify_spec(proof@, public_values@, vk@, mode)),
{
    let r = verify(proof, public_values, vk, mode);
    report(&r)
}

/// STARK verification with a consistency check between the caller's public
/// values and those committed in the proof. True exactly on acceptance.
pub fn verify_stark_with_public_inputs(proof: &[u8], public_inputs: &[u8], zkm_vk: &[u8]) -> (r:
    bool)
    ensures
        r == (verify_spec(proof@, public_inputs@, zkm_vk@, Mode::Stark) is Ok),
{
    verify(proof, public_inputs, zkm_vk, Mode::Stark).is_ok()
}

/// STARK verification against the key alone, trusting the proof's own
/// public-values slot. True exactly on acceptance.
pub fn verify_stark(proof: &[u8], zkm_vk: &[u8]) -> (r: bool)
    ensures
        r == (verify_proof_spec(proof@, zkm_vk@) is Ok),
{
    verify_proof(proof, zkm_vk).is_ok()
}

/// Groth16 verification against the embedded fixed key, named by its
/// digest string. True exactly on acceptance.
pub fn verify_groth16(proof: &[u8], public_inputs: &[u8], zkm_vk_hash: &str) -> (r: bool)
    ensures
        r == (groth16_verify_spec(proof@, public_inputs@, zkm_vk_hash@) is Ok),
{
    verify_groth16_checked(proof, public_inputs, zkm_vk_hash).is_ok()
}

/// PLONK verification against the embedded fixed key, named by its digest
/// string. True exactly on acceptance.
pub fn verify_plonk(proof: &[u8], public_inputs: &[u8], zkm_vk_hash: &str) -> (r: bool)
    ensures
        r == (plonk_verify_spec(proof@, public_inputs@, zkm_vk_hash@) is Ok),
{
    verify_plonk_checked(proof, public_inputs, zkm_vk_hash).is_ok()
}

} // verus!
