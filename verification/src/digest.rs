//! The deterministic rolling digest used for key commitments and for the
//! Fiat–Shamir transcript seal. The digest is a pure function of its input
//! bytes; no external randomness enters a verification call.
//!
//! The digest is a fast mixing fold, not a collision-resistant hash: it
//! gives the proof format exact, provable tamper evidence (see
//! [`lemma_digest_fold_single_difference`]), which is the property the
//! verification pipeline's contracts rest on.

use crate::bytes::{be_bytes_u32, be_bytes_u64, push_be_u32, push_be_u64, push_bytes};
use crate::types::Mode;
use vstd::prelude::*;

verus! {

/// Initial state of the rolling digest.
pub const DIGEST_OFFSET: u64 = 0xcbf2_9ce4_8422_2325;

/// Odd multiplier of the rolling digest; multiplication by an odd constant
/// is a bijection modulo 2^64, so a change to any absorbed byte changes the
/// final digest unless a later byte differs too.
pub const DIGEST_PRIME: u64 = 0x100_0000_01b3;

/// One absorption step of the rolling digest.
pub open spec fn digest_step(h: u64, b: u8) -> u64 {
    vstd::wrapping::u64_specs::wrapping_mul(h ^ (b as u64), DIGEST_PRIME)
}

/// The digest state after absorbing `s`, starting from `h`.
pub open spec fn digest_fold(h: u64, s: Seq<u8>) -> u64
    decreases s.len(),
{
    if s.len() == 0 {
        h
    } else {
        digest_step(digest_fold(h, s.drop_last()), s.last())
    }
}

/// The digest of a byte sequence.
pub open spec fn digest_of(s: Seq<u8>) -> u64 {
    digest_fold(DIGEST_OFFSET, s)
}

/// Folding over one more byte of `s` absorbs exactly `s[i]`.
pub proof fn lemma_digest_fold_take_step(h: u64, s: Seq<u8>, i: int)
    requires
        0 <= i < s.len(),
    ensures
        digest_fold(h, s.take(i + 1)) == digest_step(digest_fold(h, s.take(i)), s[i]),
{
    assert(s.take(i + 1).drop_last() =~= s.take(i));
}

/// Executable rolling digest over a byte vector.
pub fn compute_digest(s: &Vec<u8>) -> (r: u64)
    ensures
        r == digest_of(s@),
{
    let mut h: u64 = DIGEST_OFFSET;
    let mut i: usize = 0;
    while i < s.len()
        invariant
            i <= s@.len(),
            h == digest_fold(DIGEST_OFFSET, s@.take(i as int)),
        decreases s@.len() - i,
    {
        proof {
            lemma_digest_fold_take_step(DIGEST_OFFSET, s@, i as int);
        }
        let x = h ^ (s[i] as u64);
        h = x.wrapping_mul(DIGEST_PRIME);
        i = i + 1;
    }
    proof {
        assert(s@.take(s@.len() as int) =~= s@);
    }
    h
}

/// The multiplier is invertible modulo 2^64, so one absorption step sends
/// distinct pre-states to distinct states.
proof fn lemma_mul_prime_injective(a: u64, b: u64)
    requires
        a != b,
    ensures
        vstd::wrapping::u64_specs::wrapping_mul(a, DIGEST_PRIME)
            != vstd::wrapping::u64_specs::wrapping_mul(b, DIGEST_PRIME),
{
    let m: int = 0x1_0000_0000_0000_0000;
    let p: int = DIGEST_PRIME as int;
    let pinv: int = 0xce96_5057_aff6_957b;
    let q: int = 0xce_9650_590f;
    assert(p * pinv == 1 + q * m);

    vstd::arithmetic::div_mod::lemma_mul_mod_noop_left((a as int) * p, pinv, m);
    vstd::arithmetic::mul::lemma_mul_is_associative(a as int, p, pinv);
    assert((a as int) * (1 + q * m) == m * ((a as int) * q) + a as int) by (nonlinear_arith);
    vstd::arithmetic::div_mod::lemma_mod_multiples_vanish((a as int) * q, a as int, m);
    vstd::arithmetic::div_mod::lemma_small_mod(a as nat, m as nat);
    assert(((((a as int) * p) % m) * pinv) % m == a as int);

    vstd::arithmetic::div_mod::lemma_mul_mod_noop_left((b as int) * p, pinv, m);
    vstd::arithmetic::mul::lemma_mul_is_associative(b as int, p, pinv);
    assert((b as int) * (1 + q * m) == m * ((b as int) * q) + b as int) by (nonlinear_arith);
    vstd::arithmetic::div_mod::lemma_mod_multiples_vanish((b as int) * q, b as int, m);
    vstd::arithmetic::div_mod::lemma_small_mod(b as nat, m as nat);
    assert(((((b as int) * p) % m) * pinv) % m == b as int);

    let fa = vstd::wrapping::u64_specs::wrapping_mul(a, DIGEST_PRIME);
    let fb = vstd::wrapping::u64_specs::wrapping_mul(b, DIGEST_PRIME);
    assert(fa as int == ((a as int) * p) % m);
    assert(fb as int == ((b as int) * p) % m);
    if fa == fb {
        assert(((fa as int) * pinv) % m == a as int);
        assert(((fb as int) * pinv) % m == b as int);
        assert(false);
    }
}

/// One absorption step never collides: distinct bytes absorbed from one
/// state, or one byte absorbed from distinct states, give distinct states.
proof fn lemma_digest_step_injective(x1: u64, x2: u64, b1: u8, b2: u8)
    requires
        (x1 == x2 && b1 != b2) || (x1 != x2 && b1 == b2),
    ensures
        digest_step(x1, b1) != digest_step(x2, b2),
{
    let v1 = b1 as u64;
    let v2 = b2 as u64;
    assert(b1 != b2 ==> v1 != v2);
    assert(x1 == x2 && v1 != v2 ==> (x1 ^ v1) != (x2 ^ v2)) by (bit_vector);
    assert(x1 != x2 && v1 == v2 ==> (x1 ^ v1) != (x2 ^ v2)) by (bit_vector);
    lemma_mul_prime_injective(x1 ^ v1, x2 ^ v2);
}

/// Two equally long inputs that differ in exactly one byte never share a
/// digest: the differing byte sends the common state apart, and every
/// later step preserves the difference.
pub proof fn lemma_digest_fold_single_difference(h: u64, s1: Seq<u8>, s2: Seq<u8>, k: int)
    requires
        s1.len() == s2.len(),
        0 <= k < s1.len(),
        s1[k] != s2[k],
        forall|i: int| 0 <= i < s1.len() && i != k ==> s1[i] == s2[i],
    ensures
        digest_fold(h, s1) != digest_fold(h, s2),
    decreases s1.len(),
{
    if k == s1.len() - 1 {
        assert(s1.drop_last() =~= s2.drop_last());
        let x = digest_fold(h, s1.drop_last());
        lemma_digest_step_injective(x, x, s1.last(), s2.last());
    } else {
        lemma_digest_fold_single_difference(h, s1.drop_last(), s2.drop_last(), k);
        let x1 = digest_fold(h, s1.drop_last());
        let x2 = digest_fold(h, s2.drop_last());
        assert(s1.last() == s2.last());
        lemma_digest_step_injective(x1, x2, s1.last(), s2.last());
    }
}

/// The concatenated big-endian bytes of a sequence of field elements.
pub open spec fn elements_bytes(es: Seq<u64>) -> Seq<u8>
    decreases es.len(),
{
    if es.len() == 0 {
        Seq::empty()
    } else {
        elements_bytes(es.drop_last()) + be_bytes_u64(es.last())
    }
}

pub proof fn lemma_elements_bytes_len(es: Seq<u64>)
    ensures
        elements_bytes(es).len() == 8 * es.len(),
    decreases es.len(),
{
    if es.len() > 0 {
        lemma_elements_bytes_len(es.drop_last());
    }
}

/// Element `i` occupies bytes `8i .. 8i + 8` of the serialization.
pub proof fn lemma_elements_bytes_index(es: Seq<u64>, i: int)
    requires
        0 <= i < es.len(),
    ensures
        elements_bytes(es).len() == 8 * es.len(),
        elements_bytes(es).subrange(8 * i, 8 * i + 8) == be_bytes_u64(es[i]),
    decreases es.len(),
{
    lemma_elements_bytes_len(es);
    lemma_elements_bytes_len(es.drop_last());
    if i == es.len() - 1 {
        assert(elements_bytes(es).subrange(8 * i, 8 * i + 8) =~= be_bytes_u64(es.last()));
    } else {
        lemma_elements_bytes_index(es.drop_last(), i);
        assert(elements_bytes(es).subrange(8 * i, 8 * i + 8) =~= elements_bytes(
            es.drop_last(),
        ).subrange(8 * i, 8 * i + 8));
    }
}

/// Serializing one more element appends exactly its eight bytes.
pub proof fn lemma_elements_bytes_take_step(es: Seq<u64>, i: int)
    requires
        0 <= i < es.len(),
    ensures
        elements_bytes(es.take(i + 1)) == elements_bytes(es.take(i)) + be_bytes_u64(es[i]),
{
    assert(es.take(i + 1).drop_last() =~= es.take(i));
}

/// The Fiat–Shamir transcript of a proof: the mode's domain tag, then the
/// length-prefixed verifying-key slot, public-values slot and element list.
pub open spec fn transcript(m: Mode, vk: Seq<u8>, pv: Seq<u8>, es: Seq<u64>) -> Seq<u8>
    recommends
        vk.len() < 0x1_0000_0000,
        pv.len() < 0x1_0000_0000,
        es.len() < 0x1_0000_0000,
{
    seq![m.spec_tag()] + be_bytes_u32(vk.len() as u32) + vk + be_bytes_u32(pv.len() as u32) + pv
        + be_bytes_u32(es.len() as u32) + elements_bytes(es)
}

/// The seal every genuine proof must carry: the digest of its transcript.
pub open spec fn seal_of(m: Mode, vk: Seq<u8>, pv: Seq<u8>, es: Seq<u64>) -> u64 {
    digest_of(transcript(m, vk, pv, es))
}

/// Compute the transcript seal for the given slots.
pub fn compute_seal(m: Mode, vk: &[u8], pv: &[u8], es: &Vec<u64>) -> (r: u64)
    requires
        vk@.len() < 0x1_0000_0000,
        pv@.len() < 0x1_0000_0000,
        es@.len() < 0x1_0000_0000,
    ensures
        r == seal_of(m, vk@, pv@, es@),
{
    let mut t: Vec<u8> = Vec::new();
    t.push(m.tag());
    push_be_u32(&mut t, vk.len() as u32);
    push_bytes(&mut t, vk);
    push_be_u32(&mut t, pv.len() as u32);
    push_bytes(&mut t, pv);
    push_be_u32(&mut t, es.len() as u32);
    let ghost base: Seq<u8> = t@;
    let mut i: usize = 0;
    while i < es.len()
        invariant
            i <= es@.len(),
            t@ == base + elements_bytes(es@.take(i as int)),
        decreases es@.len() - i,
    {
        proof {
            lemma_elements_bytes_take_step(es@, i as int);
        }
        push_be_u64(&mut t, es[i]);
        i = i + 1;
    }
    proof {
        assert(es@.take(es@.len() as int) =~= es@);
        assert(t@ =~= transcript(m, vk@, pv@, es@));
    }
    compute_digest(&t)
}

} // verus!
