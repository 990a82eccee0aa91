//! A verification core for succinct zero-knowledge proofs.
//!
//! The library decodes an opaque proof byte buffer into a structured proof,
//! binds it to the caller's public values and verifying key, runs the
//! proof-system-specific consistency check, and reports a normalized result.
//! Data flows one way: raw bytes are decoded, bound to the caller's public
//! values, checked, and the outcome is reported; no step mutates another's
//! state, and verification is a pure function of (proof, public values, key).

pub mod bytes;
pub mod codec;
pub mod digest;
pub mod engine;
pub mod fixture;
pub mod laws;
pub mod registry;
pub mod report;
pub mod types;
