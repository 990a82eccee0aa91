//! Decoding an opaque proof buffer into a structured proof, and building
//! such a buffer from its parts.
//!
//! Layout, all integers big-endian: a 2-byte version tag, a 1-byte mode tag,
//! the length-prefixed verifying-key slot, the length-prefixed public-values
//! slot, the length-prefixed field-element list (8 bytes per element), and
//! the 8-byte transcript seal. Every structural defect is rejected with a
//! typed error before any element is interpreted; no input panics.

use crate::bytes::{
    be_bytes_u16, be_bytes_u32, be_bytes_u64, be_u16_at, be_u32_at, be_u64_at,
    lemma_be_u16_roundtrip, lemma_be_u64_extract,
    lemma_be_u32_roundtrip, lemma_be_u64_roundtrip, push_be_u16, push_be_u32, push_be_u64,
    push_bytes,
};
use crate::digest::{compute_seal, elements_bytes, lemma_elements_bytes_index,
    lemma_elements_bytes_len, lemma_elements_bytes_take_step, seal_of};
use crate::types::{DecodedProof, Mode, ProofView, VerifyError, FIELD_MODULUS, MIN_PROOF_LEN,
    PROOF_VERSION};
use vstd::prelude::*;
use vstd::slice::{slice_subrange, slice_to_vec};

verus! {

/// What decoding a buffer yields for a given mode: a structured proof, or
/// the defect that rejects it. Truncated input is rejected by length before
/// anything else is read; an unsupported version tag is reported as such.
pub open spec fn parse_proof(s: Seq<u8>, m: Mode) -> Result<ProofView, VerifyError> {
    if s.len() < MIN_PROOF_LEN {
        Err(VerifyError::MalformedInput)
    } else if be_u16_at(s, 0) != PROOF_VERSION {
        Err(VerifyError::VersionIncompatible)
    } else if s[2] != m.spec_tag() {
        Err(VerifyError::MalformedInput)
    } else {
        let vkl = be_u32_at(s, 3) as int;
        if s.len() < 23 + vkl {
            Err(VerifyError::MalformedInput)
        } else {
            let pvl = be_u32_at(s, 7 + vkl) as int;
            if s.len() < 23 + vkl + pvl {
                Err(VerifyError::MalformedInput)
            } else {
                let n = be_u32_at(s, 11 + vkl + pvl) as int;
                if s.len() != 23 + vkl + pvl + 8 * n {
                    Err(VerifyError::MalformedInput)
                } else if !m.spec_count_ok(n as nat) {
                    Err(VerifyError::MalformedInput)
                } else {
                    let es = Seq::new(n as nat, |i: int| be_u64_at(s, 15 + vkl + pvl + 8 * i));
                    if exists|i: int| 0 <= i < n && #[trigger] es[i] >= FIELD_MODULUS {
                        Err(VerifyError::MalformedInput)
                    } else {
                        Ok(
                            ProofView {
                                version: PROOF_VERSION,
                                mode: m,
                                vk: s.subrange(7, 7 + vkl),
                                public_values: s.subrange(11 + vkl, 11 + vkl + pvl),
                                elements: es,
                                seal: be_u64_at(s, 15 + vkl + pvl + 8 * n),
                            },
                        )
                    }
                }
            }
        }
    }
}

/// Whatever the decoder accepts is structurally well-formed and belongs to
/// the requested mode.
pub proof fn lemma_parse_wf(s: Seq<u8>, m: Mode)
    ensures
        parse_proof(s, m) matches Ok(p) ==> p.wf() && p.mode == m,
{
}

/// Where each part of an accepted buffer lies: the slots the decoder hands
/// out are exactly the buffer's bytes at their fixed offsets, and the
/// element list and seal serialize back to the bytes they were read from.
pub proof fn lemma_parse_regions(s: Seq<u8>, m: Mode)
    requires
        parse_proof(s, m) is Ok,
    ensures
        ({
            let p = parse_proof(s, m).unwrap();
            let off = 15 + p.vk.len() as int + p.public_values.len() as int;
            let n = p.elements.len() as int;
            &&& s.len() == 23 + p.vk.len() + p.public_values.len() + 8 * p.elements.len()
            &&& p.vk == s.subrange(7, 7 + p.vk.len() as int)
            &&& p.public_values == s.subrange(
                11 + p.vk.len() as int,
                11 + p.vk.len() as int + p.public_values.len() as int,
            )
            &&& forall|i: int| 0 <= i < n ==> p.elements[i] == be_u64_at(s, off + 8 * i)
            &&& elements_bytes(p.elements) == s.subrange(off, off + 8 * n)
            &&& p.seal == be_u64_at(s, off + 8 * n)
            &&& be_bytes_u64(p.seal) == s.subrange(off + 8 * n, off + 8 * n + 8)
        }),
{
    let p = parse_proof(s, m).unwrap();
    let vkl = be_u32_at(s, 3) as int;
    let pvl = be_u32_at(s, 7 + vkl) as int;
    let n = be_u32_at(s, 11 + vkl + pvl) as int;
    assert(p.vk.len() == vkl && p.public_values.len() == pvl && p.elements.len() == n);
    let off = 15 + vkl + pvl;
    lemma_elements_bytes_len(p.elements);
    assert forall|j: int| 0 <= j < 8 * n implies elements_bytes(p.elements)[j] == s[off + j] by {
        let i = j / 8;
        let t = j % 8;
        vstd::arithmetic::div_mod::lemma_fundamental_div_mod(j, 8);
        assert(0 <= t < 8);
        assert(0 <= i < n);
        lemma_elements_bytes_index(p.elements, i);
        lemma_be_u64_extract(s, off + 8 * i);
        assert(elements_bytes(p.elements)[j] == elements_bytes(p.elements).subrange(
            8 * i,
            8 * i + 8,
        )[t]);
        assert(s.subrange(off + 8 * i, off + 8 * i + 8)[t] == s[off + j]);
    }
    assert(elements_bytes(p.elements) =~= s.subrange(off as int, off + 8 * n));
    lemma_be_u64_extract(s, off + 8 * n);
}

/// The view of a decode result.
pub open spec fn decoded_view(r: Result<DecodedProof, VerifyError>) -> Result<
    ProofView,
    VerifyError,
> {
    match r {
        Ok(p) => Ok(p@),
        Err(e) => Err(e),
    }
}

/// Decode a proof buffer for the given mode. Always returns; arbitrary
/// byte input yields a typed error, never a panic.
pub fn decode(raw: &[u8], mode: Mode) -> (r: Result<DecodedProof, VerifyError>)
    ensures
        decoded_view(r) == parse_proof(raw@, mode),
{
    let n = raw.len();
    if n < MIN_PROOF_LEN {
        return Err(VerifyError::MalformedInput);
    }
    let version = crate::bytes::read_be_u16(raw, 0);
    if version != PROOF_VERSION {
        return Err(VerifyError::VersionIncompatible);
    }
    let tag = *vstd::slice::slice_index_get(raw, 2);
    if tag != mode.tag() {
        return Err(VerifyError::MalformedInput);
    }
    let vklen = crate::bytes::read_be_u32(raw, 3) as usize;
    if vklen > n - 23 {
        return Err(VerifyError::MalformedInput);
    }
    let pvlen = crate::bytes::read_be_u32(raw, 7 + vklen) as usize;
    if pvlen > n - 23 - vklen {
        return Err(VerifyError::MalformedInput);
    }
    let cnt = crate::bytes::read_be_u32(raw, 11 + vklen + pvlen) as usize;
    let rem = n - 23 - vklen - pvlen;
    if (cnt as u64) * 8 != (rem as u64) {
        return Err(VerifyError::MalformedInput);
    }
    let count_ok = match mode {
        Mode::Stark => cnt >= 1,
        Mode::Groth16 => cnt == crate::types::GROTH16_ELEMENT_COUNT,
        Mode::Plonk => cnt == crate::types::PLONK_ELEMENT_COUNT,
    };
    if !count_ok {
        return Err(VerifyError::MalformedInput);
    }
    let off = 15 + vklen + pvlen;
    let ghost es: Seq<u64> = Seq::new(cnt as nat, |i: int| be_u64_at(raw@, off + 8 * i));
    let mut elems: Vec<u64> = Vec::new();
    let mut i: usize = 0;
    while i < cnt
        invariant
            i <= cnt,
            off == 15 + vklen + pvlen,
            n == raw@.len(),
            n == 23 + vklen + pvlen + 8 * cnt,
            n >= MIN_PROOF_LEN,
            be_u16_at(raw@, 0) == PROOF_VERSION,
            raw@[2] == mode.spec_tag(),
            vklen as int == be_u32_at(raw@, 3) as int,
            pvlen as int == be_u32_at(raw@, 7 + vklen as int) as int,
            cnt as int == be_u32_at(raw@, 11 + vklen as int + pvlen as int) as int,
            mode.spec_count_ok(cnt as nat),
            es == Seq::new(cnt as nat, |j: int| be_u64_at(raw@, off + 8 * j)),
            elems@.len() == i,
            forall|j: int| 0 <= j < i ==> elems@[j] == es[j] && elems@[j] < FIELD_MODULUS,
        decreases cnt - i,
    {
        let e = crate::bytes::read_be_u64(raw, off + 8 * i);
        if e >= FIELD_MODULUS {
            proof {
                let s = raw@;
                let vkl = be_u32_at(s, 3) as int;
                let pvl = be_u32_at(s, 7 + vkl) as int;
                let nn = be_u32_at(s, 11 + vkl + pvl) as int;
                let spec_es = Seq::new(nn as nat, |j: int| be_u64_at(s, 15 + vkl + pvl + 8 * j));
                assert(vkl == vklen as int && pvl == pvlen as int && nn == cnt as int);
                assert(spec_es[i as int] == e);
                assert(0 <= i as int && (i as int) < nn && spec_es[i as int] >= FIELD_MODULUS);
            }
            return Err(VerifyError::MalformedInput);
        }
        elems.push(e);
        i = i + 1;
    }
    proof {
        assert(elems@ =~= es);
    }
    let vkv = slice_to_vec(slice_subrange(raw, 7, 7 + vklen));
    let pvv = slice_to_vec(slice_subrange(raw, 11 + vklen, 11 + vklen + pvlen));
    let seal = crate::bytes::read_be_u64(raw, off + 8 * cnt);
    let p = DecodedProof {
        version: PROOF_VERSION,
        mode,
        vk: vkv,
        public_values: pvv,
        elements: elems,
        seal,
    };
    proof {
        let spec_r = parse_proof(raw@, mode);
        assert(p@ =~= spec_r.unwrap());
    }
    Ok(p)
}

/// The byte serialization of a structured proof.
pub open spec fn encode(p: ProofView) -> Seq<u8>
    recommends
        p.wf(),
{
    be_bytes_u16(p.version) + seq![p.mode.spec_tag()] + be_bytes_u32(p.vk.len() as u32) + p.vk
        + be_bytes_u32(p.public_values.len() as u32) + p.public_values + be_bytes_u32(
        p.elements.len() as u32,
    ) + elements_bytes(p.elements) + be_bytes_u64(p.seal)
}

/// Decoding inverts encoding: a well-formed structured proof survives a
/// round trip through its byte serialization unchanged.
pub proof fn lemma_encode_parse(p: ProofView)
    requires
        p.wf(),
    ensures
        parse_proof(encode(p), p.mode) == Ok::<ProofView, VerifyError>(p),
{
    let s = encode(p);
    let vkl = p.vk.len() as int;
    let pvl = p.public_values.len() as int;
    let n = p.elements.len() as int;
    lemma_elements_bytes_len(p.elements);
    assert(s.len() == 23 + vkl + pvl + 8 * n);

    assert(s.subrange(0, 2) =~= be_bytes_u16(p.version));
    lemma_be_u16_roundtrip(s, 0, p.version);
    assert(s[2] == p.mode.spec_tag());

    assert(s.subrange(3, 7) =~= be_bytes_u32(vkl as u32));
    lemma_be_u32_roundtrip(s, 3, vkl as u32);
    assert(be_u32_at(s, 3) as int == vkl);

    assert(s.subrange(7, 7 + vkl) =~= p.vk);

    assert(s.subrange(7 + vkl, 11 + vkl) =~= be_bytes_u32(pvl as u32));
    lemma_be_u32_roundtrip(s, 7 + vkl, pvl as u32);
    assert(be_u32_at(s, 7 + vkl) as int == pvl);

    assert(s.subrange(11 + vkl, 11 + vkl + pvl) =~= p.public_values);

    assert(s.subrange(11 + vkl + pvl, 15 + vkl + pvl) =~= be_bytes_u32(n as u32));
    lemma_be_u32_roundtrip(s, 11 + vkl + pvl, n as u32);
    assert(be_u32_at(s, 11 + vkl + pvl) as int == n);

    let off = 15 + vkl + pvl;
    assert forall|i: int| 0 <= i < n implies be_u64_at(s, off + 8 * i) == p.elements[i] by {
        lemma_elements_bytes_index(p.elements, i);
        assert(s.subrange(off + 8 * i, off + 8 * i + 8) =~= elements_bytes(p.elements).subrange(
            8 * i,
            8 * i + 8,
        ));
        lemma_be_u64_roundtrip(s, off + 8 * i, p.elements[i]);
    }
    let es = Seq::new(n as nat, |i: int| be_u64_at(s, off + 8 * i));
    assert(es =~= p.elements);

    assert(s.subrange(off + 8 * n, off + 8 * n + 8) =~= be_bytes_u64(p.seal));
    lemma_be_u64_roundtrip(s, off + 8 * n, p.seal);

    assert(parse_proof(s, p.mode).unwrap() =~= p);
}

/// The structured proof that `build_proof` assembles from its parts, with
/// the transcript seal a genuine prover would compute.
pub open spec fn built_view(m: Mode, vk: Seq<u8>, pv: Seq<u8>, es: Seq<u64>) -> ProofView {
    ProofView {
        version: PROOF_VERSION,
        mode: m,
        vk: vk,
        public_values: pv,
        elements: es,
        seal: seal_of(m, vk, pv, es),
    }
}

/// Whether a proof buffer can be assembled from these parts at all.
pub open spec fn buildable(m: Mode, vk: Seq<u8>, pv: Seq<u8>, es: Seq<u64>) -> bool {
    &&& vk.len() < 0x1_0000_0000
    &&& pv.len() < 0x1_0000_0000
    &&& es.len() < 0x1_0000_0000
    &&& m.spec_count_ok(es.len())
    &&& forall|i: int| 0 <= i < es.len() ==> es[i] < FIELD_MODULUS
}

/// Assemble a proof buffer that carries the given slots and the seal of
/// their transcript; the result decodes back to exactly those parts.
pub fn build_proof(mode: Mode, vk: &[u8], public_values: &[u8], elements: &Vec<u64>) -> (r: Option<
    Vec<u8>,
>)
    ensures
        match r {
            Some(bytes) => {
                &&& buildable(mode, vk@, public_values@, elements@)
                &&& bytes@ == encode(built_view(mode, vk@, public_values@, elements@))
                &&& parse_proof(bytes@, mode) == Ok::<ProofView, VerifyError>(
                    built_view(mode, vk@, public_values@, elements@),
                )
            },
            None => !buildable(mode, vk@, public_values@, elements@),
        },
{
    let n_vk = vk.len();
    if (n_vk as u64) >= 0x1_0000_0000 {
        return None;
    }
    let n_pv = public_values.len();
    if (n_pv as u64) >= 0x1_0000_0000 {
        return None;
    }
    let cnt = elements.len();
    if (cnt as u64) >= 0x1_0000_0000 {
        return None;
    }
    let count_ok = match mode {
        Mode::Stark => cnt >= 1,
        Mode::Groth16 => cnt == crate::types::GROTH16_ELEMENT_COUNT,
        Mode::Plonk => cnt == crate::types::PLONK_ELEMENT_COUNT,
    };
    if !count_ok {
        return None;
    }
    let mut i: usize = 0;
    while i < cnt
        invariant
            i <= cnt,
            cnt == elements@.len(),
            forall|j: int| 0 <= j < i ==> elements@[j] < FIELD_MODULUS,
        decreases cnt - i,
    {
        if elements[i] >= FIELD_MODULUS {
            return None;
        }
        i = i + 1;
    }
    let seal = compute_seal(mode, vk, public_values, elements);
    let mut out: Vec<u8> = Vec::new();
    push_be_u16(&mut out, PROOF_VERSION);
    out.push(mode.tag());
    push_be_u32(&mut out, n_vk as u32);
    push_bytes(&mut out, vk);
    push_be_u32(&mut out, n_pv as u32);
    push_bytes(&mut out, public_values);
    push_be_u32(&mut out, cnt as u32);
    let ghost base: Seq<u8> = out@;
    let mut k: usize = 0;
    while k < cnt
        invariant
            k <= cnt,
            cnt == elements@.len(),
            out@ == base + elements_bytes(elements@.take(k as int)),
        decreases cnt - k,
    {
        proof {
            lemma_elements_bytes_take_step(elements@, k as int);
        }
        push_be_u64(&mut out, elements[k]);
        k = k + 1;
    }
    push_be_u64(&mut out, seal);
    proof {
        let p = built_view(mode, vk@, public_values@, elements@);
        assert(elements@.take(elements@.len() as int) =~= elements@);
        assert(out@ =~= encode(p));
        lemma_encode_parse(p);
    }
    Some(out)
}

} // verus!
