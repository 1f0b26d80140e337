//! Little-endian byte encoding of the fixed-width integers that make up the
//! packed C structures exchanged with the firmware.

use vstd::prelude::*;

verus! {

/// The two bytes of `v`, least significant first.
pub open spec fn le16(v: u16) -> Seq<u8> {
    seq![(v & 0xff) as u8, ((v >> 8) & 0xff) as u8]
}

/// The four bytes of `v`, least significant first.
pub open spec fn le32(v: u32) -> Seq<u8> {
    seq![
        (v & 0xff) as u8,
        ((v >> 8) & 0xff) as u8,
        ((v >> 16) & 0xff) as u8,
        ((v >> 24) & 0xff) as u8,
    ]
}

/// The eight bytes of `v`, least significant first.
pub open spec fn le64(v: u64) -> Seq<u8> {
    seq![
        (v & 0xff) as u8,
        ((v >> 8) & 0xff) as u8,
        ((v >> 16) & 0xff) as u8,
        ((v >> 24) & 0xff) as u8,
        ((v >> 32) & 0xff) as u8,
        ((v >> 40) & 0xff) as u8,
        ((v >> 48) & 0xff) as u8,
        ((v >> 56) & 0xff) as u8,
    ]
}

/// The little-endian `u16` stored at offset `i` of `s`.
pub open spec fn read16(s: Seq<u8>, i: int) -> u16 {
    ((s[i] as u16) | ((s[i + 1] as u16) << 8)) as u16
}

/// The little-endian `u32` stored at offset `i` of `s`.
pub open spec fn read32(s: Seq<u8>, i: int) -> u32 {
    ((s[i] as u32) | ((s[i + 1] as u32) << 8) | ((s[i + 2] as u32) << 16) | ((s[i + 3] as u32)
        << 24)) as u32
}

/// The little-endian `u64` stored at offset `i` of `s`.
pub open spec fn read64(s: Seq<u8>, i: int) -> u64 {
    ((s[i] as u64) | ((s[i + 1] as u64) << 8) | ((s[i + 2] as u64) << 16) | ((s[i + 3] as u64)
        << 24) | ((s[i + 4] as u64) << 32) | ((s[i + 5] as u64) << 40) | ((s[i + 6] as u64) << 48)
        | ((s[i + 7] as u64) << 56)) as u64
}

/// Reading back the bytes written for a `u16` gives the same `u16`.
pub proof fn lemma_read16_le16(s: Seq<u8>, i: int, v: u16)
    requires
        0 <= i,
        i + 2 <= s.len(),
        s.subrange(i, i + 2) == le16(v),
    ensures
        read16(s, i) == v,
{
    assert(s[i] == le16(v)[0]);
    assert(s[i + 1] == le16(v)[1]);
    let b0 = s[i];
    let b1 = s[i + 1];
    assert(b0 == (v & 0xff) as u8 && b1 == ((v >> 8) & 0xff) as u8 ==> ((b0 as u16) | ((b1 as u16)
        << 8)) as u16 == v) by (bit_vector);
}

/// Reading back the bytes written for a `u32` gives the same `u32`.
pub proof fn lemma_read32_le32(s: Seq<u8>, i: int, v: u32)
    requires
        0 <= i,
        i + 4 <= s.len(),
        s.subrange(i, i + 4) == le32(v),
    ensures
        read32(s, i) == v,
{
    assert(s[i] == le32(v)[0]);
    assert(s[i + 1] == le32(v)[1]);
    assert(s[i + 2] == le32(v)[2]);
    assert(s[i + 3] == le32(v)[3]);
    let b0 = s[i];
    let b1 = s[i + 1];
    let b2 = s[i + 2];
    let b3 = s[i + 3];
    assert(b0 == (v & 0xff) as u8 && b1 == ((v >> 8) & 0xff) as u8 && b2 == ((v >> 16) & 0xff) as u8
        && b3 == ((v >> 24) & 0xff) as u8 ==> ((b0 as u32) | ((b1 as u32) << 8) | ((b2 as u32) << 16)
        | ((b3 as u32) << 24)) as u32 == v) by (bit_vector);
}

/// Reading back the bytes written for a `u64` gives the same `u64`.
pub proof fn lemma_read64_le64(s: Seq<u8>, i: int, v: u64)
    requires
        0 <= i,
        i + 8 <= s.len(),
        s.subrange(i, i + 8) == le64(v),
    ensures
        read64(s, i) == v,
{
    assert(s[i] == le64(v)[0]);
    assert(s[i + 1] == le64(v)[1]);
    assert(s[i + 2] == le64(v)[2]);
    assert(s[i + 3] == le64(v)[3]);
    assert(s[i + 4] == le64(v)[4]);
    assert(s[i + 5] == le64(v)[5]);
    assert(s[i + 6] == le64(v)[6]);
    assert(s[i + 7] == le64(v)[7]);
    let b0 = s[i];
    let b1 = s[i + 1];
    let b2 = s[i + 2];
    let b3 = s[i + 3];
    let b4 = s[i + 4];
    let b5 = s[i + 5];
    let b6 = s[i + 6];
    let b7 = s[i + 7];
    assert(b0 == (v & 0xff) as u8 && b1 == ((v >> 8) & 0xff) as u8 && b2 == ((v >> 16) & 0xff) as u8
        && b3 == ((v >> 24) & 0xff) as u8 && b4 == ((v >> 32) & 0xff) as u8 && b5 == ((v >> 40)
        & 0xff) as u8 && b6 == ((v >> 48) & 0xff) as u8 && b7 == ((v >> 56) & 0xff) as u8 ==> ((
    b0 as u64) | ((b1 as u64) << 8) | ((b2 as u64) << 16) | ((b3 as u64) << 24) | ((b4 as u64)
        << 32) | ((b5 as u64) << 40) | ((b6 as u64) << 48) | ((b7 as u64) << 56)) as u64 == v)
        by (bit_vector);
}

/// Appends the little-endian bytes of `v`.
pub fn push_u16(out: &mut Vec<u8>, v: u16)
    ensures
        final(out)@ == old(out)@ + le16(v),
{
    out.push((v & 0xff) as u8);
    out.push(((v >> 8) & 0xff) as u8);
    assert(final(out)@ =~= old(out)@ + le16(v));
}

/// Appends the little-endian bytes of `v`.
pub fn push_u32(out: &mut Vec<u8>, v: u32)
    ensures
        final(out)@ == old(out)@ + le32(v),
{
    out.push((v & 0xff) as u8);
    out.push(((v >> 8) & 0xff) as u8);
    out.push(((v >> 16) & 0xff) as u8);
    out.push(((v >> 24) & 0xff) as u8);
    assert(final(out)@ =~= old(out)@ + le32(v));
}

/// Appends the little-endian bytes of `v`.
pub fn push_u64(out: &mut Vec<u8>, v: u64)
    ensures
        final(out)@ == old(out)@ + le64(v),
{
    out.push((v & 0xff) as u8);
    out.push(((v >> 8) & 0xff) as u8);
    out.push(((v >> 16) & 0xff) as u8);
    out.push(((v >> 24) & 0xff) as u8);
    out.push(((v >> 32) & 0xff) as u8);
    out.push(((v >> 40) & 0xff) as u8);
    out.push(((v >> 48) & 0xff) as u8);
    out.push(((v >> 56) & 0xff) as u8);
    assert(final(out)@ =~= old(out)@ + le64(v));
}

/// The little-endian `u16` at offset `i`.
pub fn get_u16(s: &[u8], i: usize) -> (r: u16)
    requires
        i + 2 <= s@.len(),
    ensures
        r == read16(s@, i as int),
{
    (s[i] as u16) | ((s[i + 1] as u16) << 8)
}

/// The little-endian `u32` at offset `i`.
pub fn get_u32(s: &[u8], i: usize) -> (r: u32)
    requires
        i + 4 <= s@.len(),
    ensures
        r == read32(s@, i as int),
{
    (s[i] as u32) | ((s[i + 1] as u32) << 8) | ((s[i + 2] as u32) << 16) | ((s[i + 3] as u32) << 24)
}

/// The little-endian `u64` at offset `i`.
pub fn get_u64(s: &[u8], i: usize) -> (r: u64)
    requires
        i + 8 <= s@.len(),
    ensures
        r == read64(s@, i as int),
{
    (s[i] as u64) | ((s[i + 1] as u64) << 8) | ((s[i + 2] as u64) << 16) | ((s[i + 3] as u64) << 24)
        | ((s[i + 4] as u64) << 32) | ((s[i + 5] as u64) << 40) | ((s[i + 6] as u64) << 48) | ((s[i
        + 7] as u64) << 56)
}

} // verus!
