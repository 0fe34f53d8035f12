//! Little-endian integer fields of the fanotify wire format.
//!
//! Every multi-byte field of an event record, extension header or
//! response record is stored least-significant byte first.  The spec
//! functions here say what integer a run of bytes denotes and which
//! bytes an integer is stored as; the executable readers and writers are
//! proved against them, and the round-trip lemmas connect the two
//! directions.

use vstd::prelude::*;

verus! {

/// The 16-bit value stored at byte offset `i` of `s`.
pub open spec fn le16(s: Seq<u8>, i: int) -> u16
    recommends
        0 <= i,
        i + 2 <= s.len(),
{
    (s[i] as u16) | ((s[i + 1] as u16) << 8)
}

/// The 32-bit value stored at byte offset `i` of `s`.
pub open spec fn le32(s: Seq<u8>, i: int) -> u32
    recommends
        0 <= i,
        i + 4 <= s.len(),
{
    (s[i] as u32) | ((s[i + 1] as u32) << 8) | ((s[i + 2] as u32) << 16) | ((s[i + 3] as u32)
        << 24)
}

/// The 64-bit value stored at byte offset `i` of `s`.
pub open spec fn le64(s: Seq<u8>, i: int) -> u64
    recommends
        0 <= i,
        i + 8 <= s.len(),
{
    (s[i] as u64) | ((s[i + 1] as u64) << 8) | ((s[i + 2] as u64) << 16) | ((s[i + 3] as u64)
        << 24) | ((s[i + 4] as u64) << 32) | ((s[i + 5] as u64) << 40) | ((s[i + 6] as u64) << 48)
        | ((s[i + 7] as u64) << 56)
}

/// The two bytes that store `x`.
pub open spec fn u16_bytes(x: u16) -> Seq<u8> {
    seq![(x & 0xff) as u8, ((x >> 8) & 0xff) as u8]
}

/// The four bytes that store `x`.
pub open spec fn u32_bytes(x: u32) -> Seq<u8> {
    seq![
        (x & 0xff) as u8,
        ((x >> 8) & 0xff) as u8,
        ((x >> 16) & 0xff) as u8,
        ((x >> 24) & 0xff) as u8,
    ]
}

/// The eight bytes that store `x`.
pub open spec fn u64_bytes(x: u64) -> Seq<u8> {
    seq![
        (x & 0xff) as u8,
        ((x >> 8) & 0xff) as u8,
        ((x >> 16) & 0xff) as u8,
        ((x >> 24) & 0xff) as u8,
        ((x >> 32) & 0xff) as u8,
        ((x >> 40) & 0xff) as u8,
        ((x >> 48) & 0xff) as u8,
        ((x >> 56) & 0xff) as u8,
    ]
}

/// Reading back the bytes of a 16-bit value yields the value.
pub proof fn lemma_le16_of_bytes(x: u16)
    ensures
        le16(u16_bytes(x), 0) == x,
{
    let b0 = (x & 0xff) as u8;
    let b1 = ((x >> 8) & 0xff) as u8;
    assert((b0 as u16) | ((b1 as u16) << 8) == x) by (bit_vector)
        requires
            b0 == (x & 0xff) as u8,
            b1 == ((x >> 8) & 0xff) as u8,
    ;
}

/// Reading back the bytes of a 32-bit value yields the value.
pub proof fn lemma_le32_of_bytes(x: u32)
    ensures
        le32(u32_bytes(x), 0) == x,
{
    let b0 = (x & 0xff) as u8;
    let b1 = ((x >> 8) & 0xff) as u8;
    let b2 = ((x >> 16) & 0xff) as u8;
    let b3 = ((x >> 24) & 0xff) as u8;
    assert((b0 as u32) | ((b1 as u32) << 8) | ((b2 as u32) << 16) | ((b3 as u32) << 24) == x)
        by (bit_vector)
        requires
            b0 == (x & 0xff) as u8,
            b1 == ((x >> 8) & 0xff) as u8,
            b2 == ((x >> 16) & 0xff) as u8,
            b3 == ((x >> 24) & 0xff) as u8,
    ;
}

/// Reading back the bytes of a 64-bit value yields the value.
pub proof fn lemma_le64_of_bytes(x: u64)
    ensures
        le64(u64_bytes(x), 0) == x,
{
    let b0 = (x & 0xff) as u8;
    let b1 = ((x >> 8) & 0xff) as u8;
    let b2 = ((x >> 16) & 0xff) as u8;
    let b3 = ((x >> 24) & 0xff) as u8;
    let b4 = ((x >> 32) & 0xff) as u8;
    let b5 = ((x >> 40) & 0xff) as u8;
    let b6 = ((x >> 48) & 0xff) as u8;
    let b7 = ((x >> 56) & 0xff) as u8;
    assert((b0 as u64) | ((b1 as u64) << 8) | ((b2 as u64) << 16) | ((b3 as u64) << 24) | ((
    b4 as u64) << 32) | ((b5 as u64) << 40) | ((b6 as u64) << 48) | ((b7 as u64) << 56) == x)
        by (bit_vector)
        requires
            b0 == (x & 0xff) as u8,
            b1 == ((x >> 8) & 0xff) as u8,
            b2 == ((x >> 16) & 0xff) as u8,
            b3 == ((x >> 24) & 0xff) as u8,
            b4 == ((x >> 32) & 0xff) as u8,
            b5 == ((x >> 40) & 0xff) as u8,
            b6 == ((x >> 48) & 0xff) as u8,
            b7 == ((x >> 56) & 0xff) as u8,
    ;
}

/// A 16-bit field whose bytes are the image of `x` reads back as `x`.
pub proof fn lemma_le16_at(s: Seq<u8>, i: int, x: u16)
    requires
        0 <= i,
        i + 2 <= s.len(),
        s[i] == u16_bytes(x)[0],
        s[i + 1] == u16_bytes(x)[1],
    ensures
        le16(s, i) == x,
{
    lemma_le16_of_bytes(x);
}

/// A 32-bit field whose bytes are the image of `x` reads back as `x`.
pub proof fn lemma_le32_at(s: Seq<u8>, i: int, x: u32)
    requires
        0 <= i,
        i + 4 <= s.len(),
        s[i] == u32_bytes(x)[0],
        s[i + 1] == u32_bytes(x)[1],
        s[i + 2] == u32_bytes(x)[2],
        s[i + 3] == u32_bytes(x)[3],
    ensures
        le32(s, i) == x,
{
    lemma_le32_of_bytes(x);
}

/// A 64-bit field whose bytes are the image of `x` reads back as `x`.
pub proof fn lemma_le64_at(s: Seq<u8>, i: int, x: u64)
    requires
        0 <= i,
        i + 8 <= s.len(),
        s[i] == u64_bytes(x)[0],
        s[i + 1] == u64_bytes(x)[1],
        s[i + 2] == u64_bytes(x)[2],
        s[i + 3] == u64_bytes(x)[3],
        s[i + 4] == u64_bytes(x)[4],
        s[i + 5] == u64_bytes(x)[5],
        s[i + 6] == u64_bytes(x)[6],
        s[i + 7] == u64_bytes(x)[7],
    ensures
        le64(s, i) == x,
{
    lemma_le64_of_bytes(x);
}

/// Casting a signed 32-bit value to unsigned and back yields the
/// value.
pub proof fn lemma_u32_of_i32_roundtrip(x: i32)
    ensures
        (#[verifier::truncate] (x as u32)) as i32 == x,
{
    assert((#[verifier::truncate] (x as u32)) as i32 == x) by (bit_vector);
}

/// A slice never holds more bytes than `usize` can count.
pub proof fn lemma_slice_len_bound(buf: &[u8])
    ensures
        buf@.len() <= usize::MAX,
{
    assert(vstd::slice::spec_slice_len(buf) == buf@.len());
}

/// Reads the 16-bit field at offset `i`.
pub fn read_u16(buf: &[u8], i: usize) -> (r: u16)
    requires
        i + 2 <= buf@.len(),
    ensures
        r == le16(buf@, i as int),
{
    (buf[i] as u16) | ((buf[i + 1] as u16) << 8)
}

/// Reads the 32-bit field at offset `i`.
pub fn read_u32(buf: &[u8], i: usize) -> (r: u32)
    requires
        i + 4 <= buf@.len(),
    ensures
        r == le32(buf@, i as int),
{
    (buf[i] as u32) | ((buf[i + 1] as u32) << 8) | ((buf[i + 2] as u32) << 16) | ((buf[i
        + 3] as u32) << 24)
}

/// Reads the 64-bit field at offset `i`.
pub fn read_u64(buf: &[u8], i: usize) -> (r: u64)
    requires
        i + 8 <= buf@.len(),
    ensures
        r == le64(buf@, i as int),
{
    (buf[i] as u64) | ((buf[i + 1] as u64) << 8) | ((buf[i + 2] as u64) << 16) | ((buf[i
        + 3] as u64) << 24) | ((buf[i + 4] as u64) << 32) | ((buf[i + 5] as u64) << 40) | ((buf[i
        + 6] as u64) << 48) | ((buf[i + 7] as u64) << 56)
}

/// Appends the two bytes of `x`.
pub fn push_u16(out: &mut Vec<u8>, x: u16)
    ensures
        final(out)@ == old(out)@ + u16_bytes(x),
{
    out.push((x & 0xff) as u8);
    out.push(((x >> 8) & 0xff) as u8);
    assert(out@ =~= old(out)@ + u16_bytes(x));
}

/// Appends the four bytes of `x`.
pub fn push_u32(out: &mut Vec<u8>, x: u32)
    ensures
        final(out)@ == old(out)@ + u32_bytes(x),
{
    out.push((x & 0xff) as u8);
    out.push(((x >> 8) & 0xff) as u8);
    out.push(((x >> 16) & 0xff) as u8);
    out.push(((x >> 24) & 0xff) as u8);
    assert(out@ =~= old(out)@ + u32_bytes(x));
}

/// Appends the eight bytes of `x`.
pub fn push_u64(out: &mut Vec<u8>, x: u64)
    ensures
        final(out)@ == old(out)@ + u64_bytes(x),
{
    out.push((x & 0xff) as u8);
    out.push(((x >> 8) & 0xff) as u8);
    out.push(((x >> 16) & 0xff) as u8);
    out.push(((x >> 24) & 0xff) as u8);
    out.push(((x >> 32) & 0xff) as u8);
    out.push(((x >> 40) & 0xff) as u8);
    out.push(((x >> 48) & 0xff) as u8);
    out.push(((x >> 56) & 0xff) as u8);
    assert(out@ =~= old(out)@ + u64_bytes(x));
}

} // verus!
