//! Global laws of the verification pipeline, stated and proved over the
//! same spec functions the executable contracts use.

use crate::bytes::{be_bytes_u32, be_u16_at, be_u32_at, be_u64_at, lemma_be_u64_extract};
use crate::codec::{buildable, built_view, encode, lemma_encode_parse, lemma_parse_regions,
    parse_proof};
use crate::digest::{digest_of, elements_bytes, seal_of, transcript, DIGEST_OFFSET,
    lemma_digest_fold_single_difference};
use crate::engine::{groth16_verify_spec, plonk_verify_spec, verify_spec};
use crate::fixture::{key_hex_of, lemma_key_hex_parses};
use crate::registry::{groth16_key, plonk_key};
use crate::types::{Mode, ProofView, VerifyError, FIELD_MODULUS, MIN_PROOF_LEN, PROOF_VERSION};
use vstd::prelude::*;

verus! {

/// Determinism: verification is a pure function of (proof, public values,
/// key, mode); two calls on identical inputs yield the identical result.
pub proof fn lemma_verify_deterministic(
    s1: Seq<u8>,
    pv1: Seq<u8>,
    vk1: Seq<u8>,
    m1: Mode,
    s2: Seq<u8>,
    pv2: Seq<u8>,
    vk2: Seq<u8>,
    m2: Mode,
)
    requires
        s1 == s2,
        pv1 == pv2,
        vk1 == vk2,
        m1 == m2,
    ensures
        verify_spec(s1, pv1, vk1, m1) == verify_spec(s2, pv2, vk2, m2),
{
}

/// Public-input binding: a proof accepted with public values `pv` is
/// rejected with `PublicInputMismatch` when any other public values are
/// substituted — never accepted.
pub proof fn lemma_public_input_binding(
    s: Seq<u8>,
    pv: Seq<u8>,
    other: Seq<u8>,
    vk: Seq<u8>,
    m: Mode,
)
    requires
        verify_spec(s, pv, vk, m) is Ok,
        other != pv,
    ensures
        verify_spec(s, other, vk, m) == Err::<(), VerifyError>(VerifyError::PublicInputMismatch),
{
}

/// Key gating: a proof accepted under key `vk` is rejected with
/// `KeyMismatch` when checked against any other key.
pub proof fn lemma_key_gating(s: Seq<u8>, pv: Seq<u8>, vk: Seq<u8>, other_vk: Seq<u8>, m: Mode)
    requires
        verify_spec(s, pv, vk, m) is Ok,
        other_vk != vk,
    ensures
        verify_spec(s, pv, other_vk, m) == Err::<(), VerifyError>(VerifyError::KeyMismatch),
{
}

/// Malformed-input robustness: any buffer shorter than the minimum proof
/// length decodes to `MalformedInput` in every mode, and verification
/// rejects it with that error. The executable decoder is verified total,
/// so no byte input panics.
pub proof fn lemma_short_input_malformed(s: Seq<u8>, pv: Seq<u8>, vk: Seq<u8>, m: Mode)
    requires
        s.len() < MIN_PROOF_LEN,
    ensures
        parse_proof(s, m) == Err::<ProofView, VerifyError>(
            VerifyError::MalformedInput,
        ),
        verify_spec(s, pv, vk, m) == Err::<(), VerifyError>(VerifyError::MalformedInput),
{
}

/// Cross-mode rejection: a buffer that decodes in one mode is malformed
/// input for every other mode, since it carries the first mode's tag.
pub proof fn lemma_mode_mismatch(s: Seq<u8>, m1: Mode, m2: Mode)
    requires
        parse_proof(s, m1) is Ok,
        m1 != m2,
    ensures
        parse_proof(s, m2) == Err::<ProofView, VerifyError>(
            VerifyError::MalformedInput,
        ),
{
}

/// Tamper evidence behind negative soundness: two transcripts of equal
/// length that differ in exactly one byte never share a digest, so a seal
/// recorded for one transcript can never match the other. A flipped byte
/// elsewhere in a buffer may instead change how the buffer parses; those
/// flips are caught by the structural and binding checks.
pub proof fn lemma_single_byte_change_alters_digest(s1: Seq<u8>, s2: Seq<u8>, k: int)
    requires
        s1.len() == s2.len(),
        0 <= k < s1.len(),
        s1[k] != s2[k],
        forall|i: int| 0 <= i < s1.len() && i != k ==> s1[i] == s2[i],
    ensures
        digest_of(s1) != digest_of(s2),
{
    lemma_digest_fold_single_difference(DIGEST_OFFSET, s1, s2, k);
}

/// Completeness at the Groth16 entry point: a proof assembled under the
/// embedded fixed key, presented with its genuine public values and the
/// key's rendered identity string, is accepted.
pub proof fn lemma_groth16_entry_accepts(pv: Seq<u8>, es: Seq<u64>)
    requires
        buildable(Mode::Groth16, groth16_key(), pv, es),
    ensures
        groth16_verify_spec(
            encode(built_view(Mode::Groth16, groth16_key(), pv, es)),
            pv,
            key_hex_of(groth16_key()),
        ) == Ok::<(), VerifyError>(()),
{
    lemma_encode_parse(built_view(Mode::Groth16, groth16_key(), pv, es));
    lemma_key_hex_parses(groth16_key());
}

/// Completeness at the PLONK entry point, as for Groth16.
pub proof fn lemma_plonk_entry_accepts(pv: Seq<u8>, es: Seq<u64>)
    requires
        buildable(Mode::Plonk, plonk_key(), pv, es),
    ensures
        plonk_verify_spec(
            encode(built_view(Mode::Plonk, plonk_key(), pv, es)),
            pv,
            key_hex_of(plonk_key()),
        ) == Ok::<(), VerifyError>(()),
{
    lemma_encode_parse(built_view(Mode::Plonk, plonk_key(), pv, es));
    lemma_key_hex_parses(plonk_key());
}

/// Negative soundness over the proof body: flipping one byte of an
/// accepted buffer anywhere in its element region or seal flips the result
/// to a rejection. (A flip elsewhere lands in the header or in the key or
/// public-values slots, which the structural, key-gating, and binding
/// checks compare against the caller's own inputs.)
pub proof fn lemma_body_byte_flip_rejected(
    s: Seq<u8>,
    s2: Seq<u8>,
    pv: Seq<u8>,
    vk: Seq<u8>,
    m: Mode,
    k: int,
)
    requires
        verify_spec(s, pv, vk, m) is Ok,
        s2.len() == s.len(),
        15 + vk.len() + pv.len() <= k < s.len(),
        s2[k] != s[k],
        forall|i: int| 0 <= i < s.len() && i != k ==> s2[i] == s[i],
    ensures
        verify_spec(s2, pv, vk, m) == Err::<(), VerifyError>(VerifyError::MalformedInput)
            || verify_spec(s2, pv, vk, m) == Err::<(), VerifyError>(
            VerifyError::CryptographicCheckFailed,
        ),
{
    let p = parse_proof(s, m).unwrap();
    lemma_parse_regions(s, m);
    let vkl = vk.len() as int;
    let pvl = pv.len() as int;
    let n = p.elements.len() as int;
    let off = 15 + vkl + pvl;
    assert(p.vk == vk && p.public_values == pv);
    assert(s.len() == 23 + vkl + pvl + 8 * n);

    // The header and the two slots of the tampered buffer read as before:
    // the flipped byte lies at or after the element region.
    assert(be_u16_at(s2, 0) == be_u16_at(s, 0));
    assert(s2[2] == s[2]);
    assert(be_u32_at(s2, 3) == be_u32_at(s, 3));
    assert(be_u32_at(s2, 7 + vkl) == be_u32_at(s, 7 + vkl));
    assert(be_u32_at(s2, 11 + vkl + pvl) == be_u32_at(s, 11 + vkl + pvl));
    assert(s2.subrange(7, 7 + vkl) =~= vk);
    assert(s2.subrange(11 + vkl, 11 + vkl + pvl) =~= pv);

    let es2 = Seq::new(n as nat, |i: int| be_u64_at(s2, off + 8 * i));
    let seal2 = be_u64_at(s2, off + 8 * n);

    if k >= off + 8 * n {
        // The flip hit the seal: the elements read as before, the recorded
        // seal does not, and the genuine seal is unchanged.
        assert forall|i: int| 0 <= i < n implies es2[i] == p.elements[i] by {
            assert(be_u64_at(s2, off + 8 * i) == be_u64_at(s, off + 8 * i));
        }
        assert(es2 =~= p.elements);
        lemma_be_u64_extract(s2, off + 8 * n);
        if seal2 == p.seal {
            assert(s2.subrange(off + 8 * n, off + 8 * n + 8) == s.subrange(
                off + 8 * n,
                off + 8 * n + 8,
            ));
            assert(s2[k] == s2.subrange(off + 8 * n, off + 8 * n + 8)[k - (off + 8 * n)]);
            assert(false);
        }
        assert(parse_proof(s2, m) matches Ok(q) && q == ProofView {
            version: PROOF_VERSION,
            mode: m,
            vk: vk,
            public_values: pv,
            elements: p.elements,
            seal: seal2,
        }) by {
            assert(parse_proof(s2, m) is Ok);
            assert(parse_proof(s2, m).unwrap() =~= ProofView {
                version: PROOF_VERSION,
                mode: m,
                vk: vk,
                public_values: pv,
                elements: es2,
                seal: seal2,
            });
        }
        assert(seal2 != seal_of(m, vk, pv, p.elements));
        assert(verify_spec(s2, pv, vk, m) == Err::<(), VerifyError>(
            VerifyError::CryptographicCheckFailed,
        ));
    } else {
        // The flip hit one element's window.
        let i0 = (k - off) / 8;
        let t0 = (k - off) % 8;
        vstd::arithmetic::div_mod::lemma_fundamental_div_mod(k - off, 8);
        assert(0 <= t0 < 8);
        assert(0 <= i0 < n);
        assert forall|i: int| 0 <= i < n && i != i0 implies es2[i] == p.elements[i] by {
            assert(be_u64_at(s2, off + 8 * i) == be_u64_at(s, off + 8 * i));
        }
        lemma_be_u64_extract(s, off + 8 * i0);
        lemma_be_u64_extract(s2, off + 8 * i0);
        if es2[i0] == p.elements[i0] {
            assert(s2.subrange(off + 8 * i0, off + 8 * i0 + 8) == s.subrange(
                off + 8 * i0,
                off + 8 * i0 + 8,
            ));
            assert(s2[k] == s2.subrange(off + 8 * i0, off + 8 * i0 + 8)[t0]);
            assert(false);
        }
        if es2[i0] >= FIELD_MODULUS {
            // The altered element left the field: structurally rejected.
            assert(parse_proof(s2, m) == Err::<ProofView, VerifyError>(
                VerifyError::MalformedInput,
            ));
            assert(verify_spec(s2, pv, vk, m) == Err::<(), VerifyError>(
                VerifyError::MalformedInput,
            ));
        } else {
            assert forall|i: int| 0 <= i < n implies es2[i] < FIELD_MODULUS by {
                if i != i0 {
                    assert(es2[i] == p.elements[i]);
                }
            }
            let q = ProofView {
                version: PROOF_VERSION,
                mode: m,
                vk: vk,
                public_values: pv,
                elements: es2,
                seal: seal2,
            };
            assert(parse_proof(s2, m) matches Ok(q2) && q2 == q) by {
                assert(parse_proof(s2, m) is Ok);
                assert(parse_proof(s2, m).unwrap() =~= q);
            }
            assert(seal2 == p.seal) by {
                assert(be_u64_at(s2, off + 8 * n) == be_u64_at(s, off + 8 * n));
            }
            // The two transcripts differ in exactly the flipped byte.
            lemma_parse_regions(s2, m);
            let pre = seq![m.spec_tag()] + be_bytes_u32(vkl as u32) + vk + be_bytes_u32(
                pvl as u32,
            ) + pv + be_bytes_u32(n as u32);
            let t1 = transcript(m, vk, pv, p.elements);
            let t2 = transcript(m, vk, pv, es2);
            assert(t1 == pre + elements_bytes(p.elements));
            assert(t2 == pre + elements_bytes(es2));
            assert(elements_bytes(p.elements) == s.subrange(off, off + 8 * n));
            assert(elements_bytes(es2) == s2.subrange(off, off + 8 * n));
            let pos = pre.len() + (k - off);
            assert(t1.len() == t2.len());
            assert(t1[pos as int] == s[k] && t2[pos as int] == s2[k]);
            assert forall|j: int| 0 <= j < t1.len() && j != pos implies t1[j] == t2[j] by {
                if j >= pre.len() {
                    assert(t1[j] == s[off + (j - pre.len())]);
                    assert(t2[j] == s2[off + (j - pre.len())]);
                }
            }
            lemma_single_byte_change_alters_digest(t1, t2, pos as int);
            assert(p.seal == digest_of(t1));
            assert(seal2 != seal_of(m, vk, pv, es2));
            assert(verify_spec(s2, pv, vk, m) == Err::<(), VerifyError>(
                VerifyError::CryptographicCheckFailed,
            ));
        }
    }
}

/// Completeness: a proof assembled from buildable parts with the genuine
/// transcript seal is accepted against exactly those parts.
pub proof fn lemma_built_proof_accepted(m: Mode, vk: Seq<u8>, pv: Seq<u8>, es: Seq<u64>)
    requires
        buildable(m, vk, pv, es),
    ensures
        verify_spec(encode(built_view(m, vk, pv, es)), pv, vk, m) == Ok::<(), VerifyError>(()),
{
    lemma_encode_parse(built_view(m, vk, pv, es));
}

} // verus!
