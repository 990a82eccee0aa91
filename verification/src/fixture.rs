//! Interchange fixtures: the text rendering of proof artifacts that
//! host-side tooling persists, with the hex encoding delegated to the
//! `hex` crate behind an exact contract.

use crate::bytes::push_be_u64;
use crate::digest::{compute_digest, digest_of};
use crate::registry::{hex_char_val, vk_hash_spec};
use crate::types::Mode;
use vstd::prelude::*;

verus! {

/// The lowercase hex digit for a value below sixteen.
pub open spec fn hex_digit(n: int) -> char
    recommends
        0 <= n < 16,
{
    if n == 0 {
        '0'
    } else if n == 1 {
        '1'
    } else if n == 2 {
        '2'
    } else if n == 3 {
        '3'
    } else if n == 4 {
        '4'
    } else if n == 5 {
        '5'
    } else if n == 6 {
        '6'
    } else if n == 7 {
        '7'
    } else if n == 8 {
        '8'
    } else if n == 9 {
        '9'
    } else if n == 10 {
        'a'
    } else if n == 11 {
        'b'
    } else if n == 12 {
        'c'
    } else if n == 13 {
        'd'
    } else if n == 14 {
        'e'
    } else {
        'f'
    }
}

/// The lowercase hex rendering of a byte sequence: two digits per byte,
/// high nibble first, in input order.
pub open spec fn hex_of(s: Seq<u8>) -> Seq<char>
    decreases s.len(),
{
    if s.len() == 0 {
        Seq::empty()
    } else {
        hex_of(s.drop_last()) + seq![
            hex_digit(s.last() as int / 16),
            hex_digit(s.last() as int % 16),
        ]
    }
}

pub proof fn lemma_hex_of_len(s: Seq<u8>)
    ensures
        hex_of(s).len() == 2 * s.len(),
    decreases s.len(),
{
    if s.len() > 0 {
        lemma_hex_of_len(s.drop_last());
    }
}

/// Byte `t` renders as the two digits at positions `2t` and `2t + 1`.
pub proof fn lemma_hex_of_index(s: Seq<u8>, t: int)
    requires
        0 <= t < s.len(),
    ensures
        hex_of(s).len() == 2 * s.len(),
        hex_of(s)[2 * t] == hex_digit(s[t] as int / 16),
        hex_of(s)[2 * t + 1] == hex_digit(s[t] as int % 16),
    decreases s.len(),
{
    lemma_hex_of_len(s);
    lemma_hex_of_len(s.drop_last());
    if t < s.len() - 1 {
        lemma_hex_of_index(s.drop_last(), t);
    }
}

/// Rendering a digit and reading it back is the identity below sixteen.
proof fn lemma_hex_digit_val(v: int)
    requires
        0 <= v < 16,
    ensures
        hex_char_val(hex_digit(v)) == v,
{
}

/// A nibble pair recombines: splitting a byte at its high nibble and
/// weighting the halves sixteen to one restores the byte's weight.
proof fn lemma_nibble_weight(b: u8, w: int)
    ensures
        (b as int / 16) * (16 * w) + (b as int % 16) * w == (b as int) * w,
{
    let q = b as int / 16;
    let r = b as int % 16;
    vstd::arithmetic::div_mod::lemma_fundamental_div_mod(b as int, 16);
    assert(q * (16 * w) + r * w == (16 * q + r) * w) by (nonlinear_arith);
}

/// The big-endian bytes of a value, weighted base-256, recombine to it.
proof fn lemma_bytes_value(d: u64)
    ensures
        (crate::bytes::be_bytes_u64(d)[0] as int) * 0x100_0000_0000_0000 + (
        crate::bytes::be_bytes_u64(d)[1] as int) * 0x1_0000_0000_0000 + (
        crate::bytes::be_bytes_u64(d)[2] as int) * 0x100_0000_0000 + (
        crate::bytes::be_bytes_u64(d)[3] as int) * 0x1_0000_0000 + (
        crate::bytes::be_bytes_u64(d)[4] as int) * 0x100_0000 + (
        crate::bytes::be_bytes_u64(d)[5] as int) * 0x1_0000 + (
        crate::bytes::be_bytes_u64(d)[6] as int) * 0x100 + (
        crate::bytes::be_bytes_u64(d)[7] as int) == d as int,
{
    assert((d >> 56) & 0xff < 256 && (d >> 48) & 0xff < 256 && (d >> 40) & 0xff < 256 && (d >> 32)
        & 0xff < 256 && (d >> 24) & 0xff < 256 && (d >> 16) & 0xff < 256 && (d >> 8) & 0xff < 256
        && d & 0xff < 256) by (bit_vector);
    assert(((d >> 56) & 0xff) * 0x100_0000_0000_0000 + ((d >> 48) & 0xff) * 0x1_0000_0000_0000 + ((d
        >> 40) & 0xff) * 0x100_0000_0000 + ((d >> 32) & 0xff) * 0x1_0000_0000 + ((d >> 24) & 0xff)
        * 0x100_0000 + ((d >> 16) & 0xff) * 0x1_0000 + ((d >> 8) & 0xff) * 0x100 + (d & 0xff)
        == d) by (bit_vector);
}

/// The identity string a key renders parses back to the key's digest:
/// the fixture's `vkey_hash` field names exactly the key it was made from.
#[verifier::rlimit(100)]
pub proof fn lemma_key_hex_parses(k: Seq<u8>)
    ensures
        vk_hash_spec(key_hex_of(k)) == Some(digest_of(k)),
{
    let d = digest_of(k);
    let bs = crate::bytes::be_bytes_u64(d);
    let h = key_hex_of(k);
    lemma_hex_of_len(bs);
    assert(h.len() == 18);
    assert(h[0] == '0' && h[1] == 'x');
    assert forall|j: int| 2 <= j < 18 implies hex_char_val(#[trigger] h[j])
        < 16 by {
        let t = (j - 2) / 2;
        vstd::arithmetic::div_mod::lemma_fundamental_div_mod(j - 2, 2);
        assert(0 <= t < 8);
        lemma_hex_of_index(bs, t);
        assert(h[j] == hex_of(bs)[j - 2]);
        if (j - 2) % 2 == 0 {
            assert(h[j] == hex_digit(bs[t] as int / 16));
            lemma_hex_digit_val(bs[t] as int / 16);
        } else {
            assert(h[j] == hex_digit(bs[t] as int % 16));
            lemma_hex_digit_val(bs[t] as int % 16);
        }
    }
    let b0 = bs[0];
    let b1 = bs[1];
    let b2 = bs[2];
    let b3 = bs[3];
    let b4 = bs[4];
    let b5 = bs[5];
    let b6 = bs[6];
    let b7 = bs[7];
    assert(hex_char_val(h[2]) == b0 as int / 16
        && hex_char_val(h[3]) == b0 as int % 16) by {
        lemma_hex_of_index(bs, 0);
        lemma_hex_digit_val(b0 as int / 16);
        lemma_hex_digit_val(b0 as int % 16);
    }
    assert(hex_char_val(h[2]) * 0x1000_0000_0000_0000 + hex_char_val(h[3])
        * 0x100_0000_0000_0000 == (b0 as int) * 0x100_0000_0000_0000) by {
        lemma_nibble_weight(b0, 0x100_0000_0000_0000);
    }
    assert(hex_char_val(h[4]) == b1 as int / 16
        && hex_char_val(h[5]) == b1 as int % 16) by {
        lemma_hex_of_index(bs, 1);
        lemma_hex_digit_val(b1 as int / 16);
        lemma_hex_digit_val(b1 as int % 16);
    }
    assert(hex_char_val(h[4]) * 0x10_0000_0000_0000 + hex_char_val(h[5])
        * 0x1_0000_0000_0000 == (b1 as int) * 0x1_0000_0000_0000) by {
        lemma_nibble_weight(b1, 0x1_0000_0000_0000);
    }
    assert(hex_char_val(h[6]) == b2 as int / 16
        && hex_char_val(h[7]) == b2 as int % 16) by {
        lemma_hex_of_index(bs, 2);
        lemma_hex_digit_val(b2 as int / 16);
        lemma_hex_digit_val(b2 as int % 16);
    }
    assert(hex_char_val(h[6]) * 0x1000_0000_0000 + hex_char_val(h[7])
        * 0x100_0000_0000 == (b2 as int) * 0x100_0000_0000) by {
        lemma_nibble_weight(b2, 0x100_0000_0000);
    }
    assert(hex_char_val(h[8]) == b3 as int / 16
        && hex_char_val(h[9]) == b3 as int % 16) by {
        lemma_hex_of_index(bs, 3);
        lemma_hex_digit_val(b3 as int / 16);
        lemma_hex_digit_val(b3 as int % 16);
    }
    assert(hex_char_val(h[8]) * 0x10_0000_0000 + hex_char_val(h[9])
        * 0x1_0000_0000 == (b3 as int) * 0x1_0000_0000) by {
        lemma_nibble_weight(b3, 0x1_0000_0000);
    }
    assert(hex_char_val(h[10]) == b4 as int / 16
        && hex_char_val(h[11]) == b4 as int % 16) by {
        lemma_hex_of_index(bs, 4);
        lemma_hex_digit_val(b4 as int / 16);
        lemma_hex_digit_val(b4 as int % 16);
    }
    assert(hex_char_val(h[10]) * 0x1000_0000 + hex_char_val(h[11])
        * 0x100_0000 == (b4 as int) * 0x100_0000) by {
        lemma_nibble_weight(b4, 0x100_0000);
    }
    assert(hex_char_val(h[12]) == b5 as int / 16
        && hex_char_val(h[13]) == b5 as int % 16) by {
        lemma_hex_of_index(bs, 5);
        lemma_hex_digit_val(b5 as int / 16);
        lemma_hex_digit_val(b5 as int % 16);
    }
    assert(hex_char_val(h[12]) * 0x10_0000 + hex_char_val(h[13])
        * 0x1_0000 == (b5 as int) * 0x1_0000) by {
        lemma_nibble_weight(b5, 0x1_0000);
    }
    assert(hex_char_val(h[14]) == b6 as int / 16
        && hex_char_val(h[15]) == b6 as int % 16) by {
        lemma_hex_of_index(bs, 6);
        lemma_hex_digit_val(b6 as int / 16);
        lemma_hex_digit_val(b6 as int % 16);
    }
    assert(hex_char_val(h[14]) * 0x1000 + hex_char_val(h[15])
        * 0x100 == (b6 as int) * 0x100) by {
        lemma_nibble_weight(b6, 0x100);
    }
    assert(hex_char_val(h[16]) == b7 as int / 16
        && hex_char_val(h[17]) == b7 as int % 16) by {
        lemma_hex_of_index(bs, 7);
        lemma_hex_digit_val(b7 as int / 16);
        lemma_hex_digit_val(b7 as int % 16);
    }
    assert(hex_char_val(h[16]) * 0x10 + hex_char_val(h[17])
        * 1 == (b7 as int) * 1) by {
        lemma_nibble_weight(b7, 1);
    }
    lemma_bytes_value(d);
    let s_val = hex_char_val(h[2]) * 0x1000_0000_0000_0000
        + hex_char_val(h[3]) * 0x100_0000_0000_0000
        + hex_char_val(h[4]) * 0x10_0000_0000_0000
        + hex_char_val(h[5]) * 0x1_0000_0000_0000
        + hex_char_val(h[6]) * 0x1000_0000_0000 + hex_char_val(
        h[7],
    ) * 0x100_0000_0000 + hex_char_val(h[8]) * 0x10_0000_0000
        + hex_char_val(h[9]) * 0x1_0000_0000 + hex_char_val(
        h[10],
    ) * 0x1000_0000 + hex_char_val(h[11]) * 0x100_0000
        + hex_char_val(h[12]) * 0x10_0000 + hex_char_val(h[13])
        * 0x1_0000 + hex_char_val(h[14]) * 0x1000 + hex_char_val(
        h[15],
    ) * 0x100 + hex_char_val(h[16]) * 0x10 + hex_char_val(h[17]);
    assert(s_val == (b0 as int) * 0x100_0000_0000_0000 + (b1 as int) * 0x1_0000_0000_0000 + (
    b2 as int) * 0x100_0000_0000 + (b3 as int) * 0x1_0000_0000 + (b4 as int) * 0x100_0000 + (
    b5 as int) * 0x1_0000 + (b6 as int) * 0x100 + (b7 as int));
    assert(s_val == d as int);
    assert(vk_hash_spec(h) == Some(d));
}

/// Relies on hex::encode: renders each input byte, in order, as two
/// lowercase hex digits, high nibble first.
#[verifier::external_body]
fn bytes_to_hex(b: &[u8]) -> (r: String)
    ensures
        r@ == hex_of(b@),
{
    hex::encode(b)
}

/// The key-identity string of a verifying key: `0x`, then the sixteen hex
/// digits of its content digest, big-endian.
pub open spec fn key_hex_of(k: Seq<u8>) -> Seq<char> {
    seq!['0', 'x'] + hex_of(crate::bytes::be_bytes_u64(digest_of(k)))
}

/// Render a verifying key's identity string.
pub fn key_commitment_hex(vk: &[u8]) -> (r: String)
    ensures
        r@ == key_hex_of(vk@),
{
    let vkv = vstd::slice::slice_to_vec(vk);
    let d = compute_digest(&vkv);
    let mut db: Vec<u8> = Vec::new();
    push_be_u64(&mut db, d);
    let digits = bytes_to_hex(db.as_slice());
    let mut s = String::from_str("0x");
    s.append(digits.as_str());
    proof {
        reveal_strlit("0x");
        assert(s@ =~= key_hex_of(vk@));
    }
    s
}

/// The interchange record for one proof artifact: every field rendered as
/// text, ready for persistence by host tooling.
pub struct ProofData {
    pub proof: String,
    pub public_inputs: String,
    pub vkey_hash: String,
    pub vkey: String,
    pub zkm_version: String,
    pub mode: String,
}

/// Assemble the interchange record: hex renderings of the proof buffer and
/// public values, the key's identity string, the key bytes themselves for
/// the STARK mode (the universal-circuit modes embed their key, so that
/// field is the bare `0x`), the version text, and the mode name.
pub fn proof_fixture(
    proof_bytes: &[u8],
    public_values: &[u8],
    vk: &[u8],
    zkm_version: &str,
    mode: Mode,
) -> (r: ProofData)
    ensures
        r.proof@ == hex_of(proof_bytes@),
        r.public_inputs@ == hex_of(public_values@),
        r.vkey_hash@ == key_hex_of(vk@),
        r.vkey@ == if mode == Mode::Stark {
            hex_of(vk@)
        } else {
            seq!['0', 'x']
        },
        r.zkm_version@ == zkm_version@,
        r.mode@ == mode.spec_name(),
{
    let vkey = match mode {
        Mode::Stark => bytes_to_hex(vk),
        Mode::Groth16 => {
            let s = String::from_str("0x");
            proof {
                reveal_strlit("0x");
                assert(s@ =~= seq!['0', 'x']);
            }
            s
        },
        Mode::Plonk => {
            let s = String::from_str("0x");
            proof {
                reveal_strlit("0x");
                assert(s@ =~= seq!['0', 'x']);
            }
            s
        },
    };
    ProofData {
        proof: bytes_to_hex(proof_bytes),
        public_inputs: bytes_to_hex(public_values),
        vkey_hash: key_commitment_hex(vk),
        vkey,
        zkm_version: String::from_str(zkm_version),
        mode: String::from_str(mode.name()),
    }
}

} // verus!
