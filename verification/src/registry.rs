//! The verification key registry. The two universal-circuit modes carry
//! fixed, embedded verifying keys that never change during a process's
//! lifetime; the recursive STARK mode takes a caller-supplied key instead.
//! A key is identified externally by its content digest, written as a
//! `0x`-prefixed hex string.

use crate::types::Mode;
use vstd::prelude::*;

verus! {

/// The embedded Groth16 verifying key bytes.
pub open spec fn groth16_key() -> Seq<u8> {
    seq![
        0x2cu8,
        0x7a,
        0x11,
        0x90,
        0x5e,
        0x63,
        0x08,
        0xf4,
        0xd1,
        0x3b,
        0xa9,
        0x42,
        0x77,
        0x05,
        0xc8,
        0x16,
    ]
}

/// The embedded PLONK verifying key bytes.
pub open spec fn plonk_key() -> Seq<u8> {
    seq![
        0x9fu8,
        0x04,
        0x6d,
        0xe2,
        0x31,
        0x58,
        0xcc,
        0x0b,
        0x8a,
        0x27,
        0x49,
        0xd5,
        0x12,
        0xb0,
        0x6e,
        0x83,
    ]
}

/// The embedded Groth16 key as a byte vector.
pub fn groth16_fixed_key() -> (r: Vec<u8>)
    ensures
        r@ == groth16_key(),
{
    let mut v: Vec<u8> = Vec::new();
    v.push(0x2c);
    v.push(0x7a);
    v.push(0x11);
    v.push(0x90);
    v.push(0x5e);
    v.push(0x63);
    v.push(0x08);
    v.push(0xf4);
    v.push(0xd1);
    v.push(0x3b);
    v.push(0xa9);
    v.push(0x42);
    v.push(0x77);
    v.push(0x05);
    v.push(0xc8);
    v.push(0x16);
    proof {
        assert(v@ =~= groth16_key());
    }
    v
}

/// The embedded PLONK key as a byte vector.
pub fn plonk_fixed_key() -> (r: Vec<u8>)
    ensures
        r@ == plonk_key(),
{
    let mut v: Vec<u8> = Vec::new();
    v.push(0x9f);
    v.push(0x04);
    v.push(0x6d);
    v.push(0xe2);
    v.push(0x31);
    v.push(0x58);
    v.push(0xcc);
    v.push(0x0b);
    v.push(0x8a);
    v.push(0x27);
    v.push(0x49);
    v.push(0xd5);
    v.push(0x12);
    v.push(0xb0);
    v.push(0x6e);
    v.push(0x83);
    proof {
        assert(v@ =~= plonk_key());
    }
    v
}

/// The registry lookup: the embedded key for the two universal-circuit
/// modes, nothing for STARK, whose key arrives with each call.
pub fn fixed_key(mode: Mode) -> (r: Option<Vec<u8>>)
    ensures
        match mode {
            Mode::Groth16 => r matches Some(k) && k@ == groth16_key(),
            Mode::Plonk => r matches Some(k) && k@ == plonk_key(),
            Mode::Stark => r is None,
        },
{
    match mode {
        Mode::Groth16 => Some(groth16_fixed_key()),
        Mode::Plonk => Some(plonk_fixed_key()),
        Mode::Stark => None,
    }
}

/// The numeric value of a hex digit, or 16 for any other character.
pub open spec fn hex_char_val(c: char) -> int {
    let v = c as int;
    if 48 <= v && v <= 57 {
        v - 48
    } else if 97 <= v && v <= 102 {
        v - 87
    } else if 65 <= v && v <= 70 {
        v - 55
    } else {
        16
    }
}

/// Executable counterpart of [`hex_char_val`].
pub fn hex_digit_val(c: char) -> (r: u8)
    ensures
        r as int == hex_char_val(c),
{
    let v = c as u32;
    if 48 <= v && v <= 57 {
        (v - 48) as u8
    } else if 97 <= v && v <= 102 {
        (v - 87) as u8
    } else if 65 <= v && v <= 70 {
        (v - 55) as u8
    } else {
        16
    }
}

/// The value of a key-identity string: `0x` followed by exactly sixteen hex
/// digits, read big-endian; anything else has no value.
pub open spec fn vk_hash_spec(h: Seq<char>) -> Option<u64> {
    if h.len() == 18 && h[0] == '0' && h[1] == 'x' && (forall|i: int|
        2 <= i < 18 ==> hex_char_val(#[trigger] h[i]) < 16) {
        Some(
            (hex_char_val(h[2]) * 0x1000_0000_0000_0000 + hex_char_val(h[3]) * 0x100_0000_0000_0000
                + hex_char_val(h[4]) * 0x10_0000_0000_0000 + hex_char_val(h[5])
                * 0x1_0000_0000_0000 + hex_char_val(h[6]) * 0x1000_0000_0000 + hex_char_val(h[7])
                * 0x100_0000_0000 + hex_char_val(h[8]) * 0x10_0000_0000 + hex_char_val(h[9])
                * 0x1_0000_0000 + hex_char_val(h[10]) * 0x1000_0000 + hex_char_val(h[11])
                * 0x100_0000 + hex_char_val(h[12]) * 0x10_0000 + hex_char_val(h[13]) * 0x1_0000
                + hex_char_val(h[14]) * 0x1000 + hex_char_val(h[15]) * 0x100 + hex_char_val(h[16])
                * 0x10 + hex_char_val(h[17])) as u64,
        )
    } else {
        None
    }
}

/// Parse a key-identity string. Returns the digest value it names, or
/// nothing if the string is not `0x` followed by sixteen hex digits.
pub fn parse_vk_hash(s: &str) -> (r: Option<u64>)
    ensures
        r == vk_hash_spec(s@),
{
    let n = s.unicode_len();
    if n != 18 {
        return None;
    }
    if s.get_char(0) != '0' || s.get_char(1) != 'x' {
        return None;
    }
    let d2 = hex_digit_val(s.get_char(2));
    let d3 = hex_digit_val(s.get_char(3));
    let d4 = hex_digit_val(s.get_char(4));
    let d5 = hex_digit_val(s.get_char(5));
    let d6 = hex_digit_val(s.get_char(6));
    let d7 = hex_digit_val(s.get_char(7));
    let d8 = hex_digit_val(s.get_char(8));
    let d9 = hex_digit_val(s.get_char(9));
    let d10 = hex_digit_val(s.get_char(10));
    let d11 = hex_digit_val(s.get_char(11));
    let d12 = hex_digit_val(s.get_char(12));
    let d13 = hex_digit_val(s.get_char(13));
    let d14 = hex_digit_val(s.get_char(14));
    let d15 = hex_digit_val(s.get_char(15));
    let d16 = hex_digit_val(s.get_char(16));
    let d17 = hex_digit_val(s.get_char(17));
    if d2 >= 16 || d3 >= 16 || d4 >= 16 || d5 >= 16 || d6 >= 16 || d7 >= 16 || d8 >= 16 || d9 >= 16
        || d10 >= 16 || d11 >= 16 || d12 >= 16 || d13 >= 16 || d14 >= 16 || d15 >= 16 || d16 >= 16
        || d17 >= 16 {
        return None;
    }
    let v: u64 = (d2 as u64) * 0x1000_0000_0000_0000 + (d3 as u64) * 0x100_0000_0000_0000 + (
    d4 as u64) * 0x10_0000_0000_0000 + (d5 as u64) * 0x1_0000_0000_0000 + (d6 as u64)
        * 0x1000_0000_0000 + (d7 as u64) * 0x100_0000_0000 + (d8 as u64) * 0x10_0000_0000 + (
    d9 as u64) * 0x1_0000_0000 + (d10 as u64) * 0x1000_0000 + (d11 as u64) * 0x100_0000 + (
    d12 as u64) * 0x10_0000 + (d13 as u64) * 0x1_0000 + (d14 as u64) * 0x1000 + (d15 as u64) * 0x100
        + (d16 as u64) * 0x10 + (d17 as u64);
    Some(v)
}

} // verus!
