//! Big-endian integers and the length-prefixed fields of the wire protocol,
//! as functions on byte sequences.

use vstd::prelude::*;

verus! {

/// The two bytes of `x`, most significant first.
pub open spec fn be16(x: u16) -> Seq<u8> {
    seq![(x / 0x100) as u8, (x % 0x100) as u8]
}

/// The four bytes of `x`, most significant first.
pub open spec fn be32(x: u32) -> Seq<u8> {
    seq![
        (x / 0x100_0000) as u8,
        (x / 0x1_0000 % 0x100) as u8,
        (x / 0x100 % 0x100) as u8,
        (x % 0x100) as u8,
    ]
}

/// The eight bytes of `x`, most significant first.
pub open spec fn be64(x: u64) -> Seq<u8> {
    be32((x / 0x1_0000_0000) as u32) + be32((x % 0x1_0000_0000) as u32)
}

/// The number whose big-endian bytes are the first two of `b`.
pub open spec fn from_be16(b: Seq<u8>) -> u16
    recommends
        b.len() >= 2,
{
    (b[0] * 0x100 + b[1]) as u16
}

/// The number whose big-endian bytes are the first four of `b`.
pub open spec fn from_be32(b: Seq<u8>) -> u32
    recommends
        b.len() >= 4,
{
    (b[0] * 0x100_0000 + b[1] * 0x1_0000 + b[2] * 0x100 + b[3]) as u32
}

/// The number whose big-endian bytes are the first eight of `b`.
pub open spec fn from_be64(b: Seq<u8>) -> u64
    recommends
        b.len() >= 8,
{
    (from_be32(b.subrange(0, 4)) * 0x1_0000_0000 + from_be32(b.subrange(4, 8))) as u64
}

/// A string field: the byte count in sixteen bits, then the bytes. A count
/// that does not fit is cut to its low sixteen bits.
pub open spec fn string_field(bytes: Seq<u8>) -> Seq<u8> {
    be16((bytes.len() % 0x1_0000) as u16) + bytes
}

/// An optional string field: a presence byte, and the string field when the
/// string is not empty.
pub open spec fn optional_string_field(bytes: Seq<u8>) -> Seq<u8> {
    if bytes.len() == 0 {
        seq![0u8]
    } else {
        seq![1u8] + string_field(bytes)
    }
}

/// A stream-bytes field: the byte count in thirty-two bits, then the bytes.
pub open spec fn stream_bytes_field(bytes: Seq<u8>) -> Seq<u8> {
    be32((bytes.len() % 0x1_0000_0000) as u32) + bytes
}

/// Decoding undoes encoding, for sixteen bits.
pub proof fn lemma_be16_round_trip(x: u16)
    ensures
        be16(x).len() == 2,
        from_be16(be16(x)) == x,
{
}

/// Encoding undoes decoding, for sixteen bits.
pub proof fn lemma_be16_bytes_round_trip(b: Seq<u8>)
    requires
        b.len() == 2,
    ensures
        be16(from_be16(b)) == b,
{
    assert(be16(from_be16(b)) =~= b);
}

/// Decoding undoes encoding, for thirty-two bits.
pub proof fn lemma_be32_round_trip(x: u32)
    ensures
        be32(x).len() == 4,
        from_be32(be32(x)) == x,
{
}

/// Encoding undoes decoding, for thirty-two bits.
pub proof fn lemma_be32_bytes_round_trip(b: Seq<u8>)
    requires
        b.len() == 4,
    ensures
        be32(from_be32(b)) == b,
{
    let b0 = b[0] as int;
    let b1 = b[1] as int;
    let b2 = b[2] as int;
    let b3 = b[3] as int;
    let x = b0 * 0x100_0000 + b1 * 0x1_0000 + b2 * 0x100 + b3;
    assert(from_be32(b) == x);
    assert(x / 0x100_0000 == b0);
    assert(x / 0x1_0000 == b0 * 0x100 + b1);
    assert(x / 0x100 == b0 * 0x1_0000 + b1 * 0x100 + b2);
    assert(be32(from_be32(b)) =~= b);
}

/// Decoding undoes encoding, for sixty-four bits.
pub proof fn lemma_be64_round_trip(x: u64)
    ensures
        be64(x).len() == 8,
        from_be64(be64(x)) == x,
{
    let hi = (x / 0x1_0000_0000) as u32;
    let lo = (x % 0x1_0000_0000) as u32;
    lemma_be32_round_trip(hi);
    lemma_be32_round_trip(lo);
    assert(be64(x).subrange(0, 4) =~= be32(hi));
    assert(be64(x).subrange(4, 8) =~= be32(lo));
}

/// Encoding undoes decoding, for sixty-four bits.
pub proof fn lemma_be64_bytes_round_trip(b: Seq<u8>)
    requires
        b.len() == 8,
    ensures
        be64(from_be64(b)) == b,
{
    let hi = from_be32(b.subrange(0, 4));
    let lo = from_be32(b.subrange(4, 8));
    lemma_be32_bytes_round_trip(b.subrange(0, 4));
    lemma_be32_bytes_round_trip(b.subrange(4, 8));
    let x = from_be64(b);
    assert((x / 0x1_0000_0000) as u32 == hi);
    assert((x % 0x1_0000_0000) as u32 == lo);
    assert(be64(x) =~= b);
}

/// The big-endian bytes of a sixteen-bit number.
pub fn u16_to_be(x: u16) -> (out: [u8; 2])
    ensures
        out@ == be16(x),
{
    let out: [u8; 2] = [(x / 0x100) as u8, (x % 0x100) as u8];
    assert(out@ =~= be16(x));
    out
}

/// The big-endian bytes of a thirty-two-bit number.
pub fn u32_to_be(x: u32) -> (out: [u8; 4])
    ensures
        out@ == be32(x),
{
    let out: [u8; 4] = [
        (x / 0x100_0000) as u8,
        (x / 0x1_0000 % 0x100) as u8,
        (x / 0x100 % 0x100) as u8,
        (x % 0x100) as u8,
    ];
    assert(out@ =~= be32(x));
    out
}

/// The big-endian bytes of a sixty-four-bit number.
pub fn u64_to_be(x: u64) -> (out: [u8; 8])
    ensures
        out@ == be64(x),
{
    let hi: [u8; 4] = u32_to_be((x / 0x1_0000_0000) as u32);
    let lo: [u8; 4] = u32_to_be((x % 0x1_0000_0000) as u32);
    let out: [u8; 8] = [hi[0], hi[1], hi[2], hi[3], lo[0], lo[1], lo[2], lo[3]];
    assert(out@ =~= be64(x));
    out
}

/// The sixteen-bit number at `at` in `bytes`, read big-endian.
pub(crate) fn u16_from_be(bytes: &[u8], at: usize) -> (x: u16)
    requires
        at + 2 <= bytes@.len(),
    ensures
        x == from_be16(bytes@.subrange(at as int, at + 2)),
{
    let b0: u16 = bytes[at] as u16;
    let b1: u16 = bytes[at + 1] as u16;
    b0 * 0x100 + b1
}

/// The thirty-two-bit number at `at` in `bytes`, read big-endian.
pub(crate) fn u32_from_be(bytes: &[u8], at: usize) -> (x: u32)
    requires
        at + 4 <= bytes@.len(),
    ensures
        x == from_be32(bytes@.subrange(at as int, at + 4)),
{
    let b0: u32 = bytes[at] as u32;
    let b1: u32 = bytes[at + 1] as u32;
    let b2: u32 = bytes[at + 2] as u32;
    let b3: u32 = bytes[at + 3] as u32;
    b0 * 0x100_0000 + b1 * 0x1_0000 + b2 * 0x100 + b3
}

/// The sixty-four-bit number at `at` in `bytes`, read big-endian.
pub(crate) fn u64_from_be(bytes: &[u8], at: usize) -> (x: u64)
    requires
        at + 8 <= bytes@.len(),
    ensures
        x == from_be64(bytes@.subrange(at as int, at + 8)),
{
    assert(at + 8 <= bytes.len());
    let hi: u64 = u32_from_be(bytes, at) as u64;
    let lo: u64 = u32_from_be(bytes, at + 4) as u64;
    proof {
        let whole = bytes@.subrange(at as int, at + 8);
        assert(whole.subrange(0, 4) =~= bytes@.subrange(at as int, at + 4));
        assert(whole.subrange(4, 8) =~= bytes@.subrange(at + 4, at + 8));
    }
    hi * 0x1_0000_0000 + lo
}

} // verus!
