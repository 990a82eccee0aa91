//! Big-endian byte-level readers and writers, with round-trip lemmas.

use vstd::prelude::*;

verus! {

/// The two big-endian bytes of a 16-bit value.
pub open spec fn be_bytes_u16(x: u16) -> Seq<u8> {
    seq![((x >> 8) & 0xff) as u8, (x & 0xff) as u8]
}

/// The four big-endian bytes of a 32-bit value.
pub open spec fn be_bytes_u32(x: u32) -> Seq<u8> {
    seq![
        ((x >> 24) & 0xff) as u8,
        ((x >> 16) & 0xff) as u8,
        ((x >> 8) & 0xff) as u8,
        (x & 0xff) as u8,
    ]
}

/// The eight big-endian bytes of a 64-bit value.
pub open spec fn be_bytes_u64(x: u64) -> Seq<u8> {
    seq![
        ((x >> 56) & 0xff) as u8,
        ((x >> 48) & 0xff) as u8,
        ((x >> 40) & 0xff) as u8,
        ((x >> 32) & 0xff) as u8,
        ((x >> 24) & 0xff) as u8,
        ((x >> 16) & 0xff) as u8,
        ((x >> 8) & 0xff) as u8,
        (x & 0xff) as u8,
    ]
}

/// The 16-bit value read big-endian at position `i`.
pub open spec fn be_u16_at(s: Seq<u8>, i: int) -> u16
    recommends
        0 <= i,
        i + 2 <= s.len(),
{
    ((s[i] as u16) << 8) | (s[i + 1] as u16)
}

/// The 32-bit value read big-endian at position `i`.
pub open spec fn be_u32_at(s: Seq<u8>, i: int) -> u32
    recommends
        0 <= i,
        i + 4 <= s.len(),
{
    ((s[i] as u32) << 24) | ((s[i + 1] as u32) << 16) | ((s[i + 2] as u32) << 8) | (s[i
        + 3] as u32)
}

/// The 64-bit value read big-endian at position `i`.
pub open spec fn be_u64_at(s: Seq<u8>, i: int) -> u64
    recommends
        0 <= i,
        i + 8 <= s.len(),
{
    ((s[i] as u64) << 56) | ((s[i + 1] as u64) << 48) | ((s[i + 2] as u64) << 40) | ((s[i
        + 3] as u64) << 32) | ((s[i + 4] as u64) << 24) | ((s[i + 5] as u64) << 16) | ((s[i
        + 6] as u64) << 8) | (s[i + 7] as u64)
}

/// Reading back the two bytes written for `x` yields `x`.
pub proof fn lemma_be_u16_roundtrip(s: Seq<u8>, i: int, x: u16)
    requires
        0 <= i,
        i + 2 <= s.len(),
        s.subrange(i, i + 2) == be_bytes_u16(x),
    ensures
        be_u16_at(s, i) == x,
{
    assert(s[i] == be_bytes_u16(x)[0] && s[i + 1] == be_bytes_u16(x)[1]) by {
        assert(s.subrange(i, i + 2)[0] == s[i]);
        assert(s.subrange(i, i + 2)[1] == s[i + 1]);
    }
    assert(((((x >> 8) & 0xff) as u8 as u16) << 8) | ((x & 0xff) as u8 as u16) == x)
        by (bit_vector);
}

/// Reading back the four bytes written for `x` yields `x`.
pub proof fn lemma_be_u32_roundtrip(s: Seq<u8>, i: int, x: u32)
    requires
        0 <= i,
        i + 4 <= s.len(),
        s.subrange(i, i + 4) == be_bytes_u32(x),
    ensures
        be_u32_at(s, i) == x,
{
    assert(s[i] == be_bytes_u32(x)[0] && s[i + 1] == be_bytes_u32(x)[1] && s[i + 2]
        == be_bytes_u32(x)[2] && s[i + 3] == be_bytes_u32(x)[3]) by {
        assert(s.subrange(i, i + 4)[0] == s[i]);
        assert(s.subrange(i, i + 4)[1] == s[i + 1]);
        assert(s.subrange(i, i + 4)[2] == s[i + 2]);
        assert(s.subrange(i, i + 4)[3] == s[i + 3]);
    }
    assert(((((x >> 24) & 0xff) as u8 as u32) << 24) | ((((x >> 16) & 0xff) as u8 as u32) << 16) | (
    (((x >> 8) & 0xff) as u8 as u32) << 8) | ((x & 0xff) as u8 as u32) == x) by (bit_vector);
}

/// Reading back the eight bytes written for `x` yields `x`.
pub proof fn lemma_be_u64_roundtrip(s: Seq<u8>, i: int, x: u64)
    requires
        0 <= i,
        i + 8 <= s.len(),
        s.subrange(i, i + 8) == be_bytes_u64(x),
    ensures
        be_u64_at(s, i) == x,
{
    assert(s[i] == be_bytes_u64(x)[0] && s[i + 1] == be_bytes_u64(x)[1] && s[i + 2]
        == be_bytes_u64(x)[2] && s[i + 3] == be_bytes_u64(x)[3] && s[i + 4] == be_bytes_u64(x)[4]
        && s[i + 5] == be_bytes_u64(x)[5] && s[i + 6] == be_bytes_u64(x)[6] && s[i + 7]
        == be_bytes_u64(x)[7]) by {
        assert(s.subrange(i, i + 8)[0] == s[i]);
        assert(s.subrange(i, i + 8)[1] == s[i + 1]);
        assert(s.subrange(i, i + 8)[2] == s[i + 2]);
        assert(s.subrange(i, i + 8)[3] == s[i + 3]);
        assert(s.subrange(i, i + 8)[4] == s[i + 4]);
        assert(s.subrange(i, i + 8)[5] == s[i + 5]);
        assert(s.subrange(i, i + 8)[6] == s[i + 6]);
        assert(s.subrange(i, i + 8)[7] == s[i + 7]);
    }
    assert(((((x >> 56) & 0xff) as u8 as u64) << 56) | ((((x >> 48) & 0xff) as u8 as u64) << 48) | (
    (((x >> 40) & 0xff) as u8 as u64) << 40) | ((((x >> 32) & 0xff) as u8 as u64) << 32) | ((((x
        >> 24) & 0xff) as u8 as u64) << 24) | ((((x >> 16) & 0xff) as u8 as u64) << 16) | ((((x
        >> 8) & 0xff) as u8 as u64) << 8) | ((x & 0xff) as u8 as u64) == x) by (bit_vector);
}

/// The eight bytes written for the value read at `i` are the bytes at `i`:
/// reading loses nothing.
pub proof fn lemma_be_u64_extract(s: Seq<u8>, i: int)
    requires
        0 <= i,
        i + 8 <= s.len(),
    ensures
        be_bytes_u64(be_u64_at(s, i)) == s.subrange(i, i + 8),
{
    let x0 = s[i];
    let x1 = s[i + 1];
    let x2 = s[i + 2];
    let x3 = s[i + 3];
    let x4 = s[i + 4];
    let x5 = s[i + 5];
    let x6 = s[i + 6];
    let x7 = s[i + 7];
    let v = be_u64_at(s, i);
    assert(v == ((x0 as u64) << 56) | ((x1 as u64) << 48) | ((x2 as u64) << 40) | ((x3 as u64)
        << 32) | ((x4 as u64) << 24) | ((x5 as u64) << 16) | ((x6 as u64) << 8) | (x7 as u64));
    let w = ((x0 as u64) << 56) | ((x1 as u64) << 48) | ((x2 as u64) << 40) | ((x3 as u64) << 32)
        | ((x4 as u64) << 24) | ((x5 as u64) << 16) | ((x6 as u64) << 8) | (x7 as u64);
    assert((w >> 56) & 0xff == x0 as u64 && (w >> 48) & 0xff == x1 as u64 && (w >> 40) & 0xff
        == x2 as u64 && (w >> 32) & 0xff == x3 as u64 && (w >> 24) & 0xff == x4 as u64 && (w >> 16)
        & 0xff == x5 as u64 && (w >> 8) & 0xff == x6 as u64 && w & 0xff == x7 as u64)
        by (bit_vector)
        requires
            w == ((x0 as u64) << 56) | ((x1 as u64) << 48) | ((x2 as u64) << 40) | ((x3 as u64)
                << 32) | ((x4 as u64) << 24) | ((x5 as u64) << 16) | ((x6 as u64) << 8) | (
            x7 as u64),
    ;
    assert(be_bytes_u64(v) =~= s.subrange(i, i + 8));
}

/// Read the 16-bit big-endian value at `i`.
pub fn read_be_u16(s: &[u8], i: usize) -> (r: u16)
    requires
        i + 2 <= s@.len(),
    ensures
        r == be_u16_at(s@, i as int),
{
    let n = s.len();
    let b0 = *vstd::slice::slice_index_get(s, i);
    let b1 = *vstd::slice::slice_index_get(s, i + 1);
    ((b0 as u16) << 8) | (b1 as u16)
}

/// Read the 32-bit big-endian value at `i`.
pub fn read_be_u32(s: &[u8], i: usize) -> (r: u32)
    requires
        i + 4 <= s@.len(),
    ensures
        r == be_u32_at(s@, i as int),
{
    let n = s.len();
    let b0 = *vstd::slice::slice_index_get(s, i);
    let b1 = *vstd::slice::slice_index_get(s, i + 1);
    let b2 = *vstd::slice::slice_index_get(s, i + 2);
    let b3 = *vstd::slice::slice_index_get(s, i + 3);
    ((b0 as u32) << 24) | ((b1 as u32) << 16) | ((b2 as u32) << 8) | (b3 as u32)
}

/// Read the 64-bit big-endian value at `i`.
pub fn read_be_u64(s: &[u8], i: usize) -> (r: u64)
    requires
        i + 8 <= s@.len(),
    ensures
        r == be_u64_at(s@, i as int),
{
    let n = s.len();
    let b0 = *vstd::slice::slice_index_get(s, i);
    let b1 = *vstd::slice::slice_index_get(s, i + 1);
    let b2 = *vstd::slice::slice_index_get(s, i + 2);
    let b3 = *vstd::slice::slice_index_get(s, i + 3);
    let b4 = *vstd::slice::slice_index_get(s, i + 4);
    let b5 = *vstd::slice::slice_index_get(s, i + 5);
    let b6 = *vstd::slice::slice_index_get(s, i + 6);
    let b7 = *vstd::slice::slice_index_get(s, i + 7);
    ((b0 as u64) << 56) | ((b1 as u64) << 48) | ((b2 as u64) << 40) | ((b3 as u64) << 32) | ((
    b4 as u64) << 24) | ((b5 as u64) << 16) | ((b6 as u64) << 8) | (b7 as u64)
}

/// Append the two big-endian bytes of `x`.
pub fn push_be_u16(v: &mut Vec<u8>, x: u16)
    ensures
        final(v)@ == old(v)@ + be_bytes_u16(x),
{
    proof {
        assert((x >> 8) & 0xff < 256 && x & 0xff < 256) by (bit_vector);
    }
    v.push(((x >> 8) & 0xff) as u8);
    v.push((x & 0xff) as u8);
    proof {
        assert(v@ =~= old(v)@ + be_bytes_u16(x));
    }
}

/// Append the four big-endian bytes of `x`.
pub fn push_be_u32(v: &mut Vec<u8>, x: u32)
    ensures
        final(v)@ == old(v)@ + be_bytes_u32(x),
{
    proof {
        assert((x >> 24) & 0xff < 256 && (x >> 16) & 0xff < 256 && (x >> 8) & 0xff < 256 && x & 0xff
            < 256) by (bit_vector);
    }
    v.push(((x >> 24) & 0xff) as u8);
    v.push(((x >> 16) & 0xff) as u8);
    v.push(((x >> 8) & 0xff) as u8);
    v.push((x & 0xff) as u8);
    proof {
        assert(v@ =~= old(v)@ + be_bytes_u32(x));
    }
}

/// Append the eight big-endian bytes of `x`.
pub fn push_be_u64(v: &mut Vec<u8>, x: u64)
    ensures
        final(v)@ == old(v)@ + be_bytes_u64(x),
{
    proof {
        assert((x >> 56) & 0xff < 256 && (x >> 48) & 0xff < 256 && (x >> 40) & 0xff < 256 && (x
            >> 32) & 0xff < 256 && (x >> 24) & 0xff < 256 && (x >> 16) & 0xff < 256 && (x >> 8)
            & 0xff < 256 && x & 0xff < 256) by (bit_vector);
    }
    v.push(((x >> 56) & 0xff) as u8);
    v.push(((x >> 48) & 0xff) as u8);
    v.push(((x >> 40) & 0xff) as u8);
    v.push(((x >> 32) & 0xff) as u8);
    v.push(((x >> 24) & 0xff) as u8);
    v.push(((x >> 16) & 0xff) as u8);
    v.push(((x >> 8) & 0xff) as u8);
    v.push((x & 0xff) as u8);
    proof {
        assert(v@ =~= old(v)@ + be_bytes_u64(x));
    }
}

/// Append a whole byte slice.
pub fn push_bytes(v: &mut Vec<u8>, s: &[u8])
    ensures
        final(v)@ == old(v)@ + s@,
{
    let mut i: usize = 0;
    while i < s.len()
        invariant
            i <= s@.len(),
            v@ == old(v)@ + s@.subrange(0, i as int),
        decreases s@.len() - i,
    {
        let b = *vstd::slice::slice_index_get(s, i);
        v.push(b);
        proof {
            assert(v@ =~= old(v)@ + s@.subrange(0, i + 1));
        }
        i = i + 1;
    }
    proof {
        assert(s@.subrange(0, s@.len() as int) =~= s@);
    }
}

/// Byte-for-byte comparison of a slice and a vector.
pub fn bytes_eq(a: &[u8], b: &Vec<u8>) -> (r: bool)
    ensures
        r == (a@ == b@),
{
    if a.len() != b.len() {
        proof {
            assert(a@ != b@);
        }
        return false;
    }
    let mut i: usize = 0;
    while i < a.len()
        invariant
            i <= a@.len(),
            a@.len() == b@.len(),
            forall|j: int| 0 <= j < i ==> a@[j] == b@[j],
        decreases a@.len() - i,
    {
        if *vstd::slice::slice_index_get(a, i) != b[i] {
            proof {
                assert(a@[i as int] != b@[i as int]);
            }
            return false;
        }
        i = i + 1;
    }
    proof {
        assert(a@ =~= b@);
    }
    true
}

} // verus!
