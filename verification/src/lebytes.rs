//! Little-endian encodings of 16- and 32-bit integers, with round-trip proofs.
//!
//! The spec functions are open so that callers can reason about the concrete
//! bytes of an encoding (the framer needs to know the two bytes of the magic).

use vstd::prelude::*;

verus! {

/// The two little-endian bytes of a 16-bit integer.
pub open spec fn spec_le16(x: u16) -> Seq<u8> {
    seq![(x & 0xff) as u8, ((x >> 8) & 0xff) as u8]
}

/// The 16-bit integer two little-endian bytes stand for.
pub open spec fn spec_from_le16(s: Seq<u8>) -> u16
    recommends
        s.len() == 2,
{
    (s[0] as u16) | ((s[1] as u16) << 8)
}

/// The four little-endian bytes of a 32-bit integer.
pub open spec fn spec_le32(x: u32) -> Seq<u8> {
    seq![
        (x & 0xff) as u8,
        ((x >> 8) & 0xff) as u8,
        ((x >> 16) & 0xff) as u8,
        ((x >> 24) & 0xff) as u8,
    ]
}

/// The 32-bit integer four little-endian bytes stand for.
pub open spec fn spec_from_le32(s: Seq<u8>) -> u32
    recommends
        s.len() == 4,
{
    (s[0] as u32) | ((s[1] as u32) << 8) | ((s[2] as u32) << 16) | ((s[3] as u32) << 24)
}

/// Decoding the encoding of a 16-bit integer gives it back.
pub proof fn lemma_le16_round_trip(x: u16)
    ensures
        spec_from_le16(spec_le16(x)) == x,
{
    let b0 = (x & 0xff) as u8;
    let b1 = ((x >> 8) & 0xff) as u8;
    assert((b0 as u16) | ((b1 as u16) << 8) == x) by (bit_vector)
        requires
            b0 == (x & 0xff) as u8 && b1 == ((x >> 8) & 0xff) as u8,
    ;
}

/// Encoding the decoding of two bytes gives them back.
pub proof fn lemma_from_le16_round_trip(s: Seq<u8>)
    requires
        s.len() == 2,
    ensures
        spec_le16(spec_from_le16(s)) =~= s,
{
    let x = spec_from_le16(s);
    let s0 = s[0];
    let s1 = s[1];
    assert((x & 0xff) as u8 == s0 && ((x >> 8) & 0xff) as u8 == s1) by (bit_vector)
        requires
            x == (s0 as u16) | ((s1 as u16) << 8),
    ;
}

/// Decoding the encoding of a 32-bit integer gives it back.
pub proof fn lemma_le32_round_trip(x: u32)
    ensures
        spec_from_le32(spec_le32(x)) == x,
{
    let b0 = (x & 0xff) as u8;
    let b1 = ((x >> 8) & 0xff) as u8;
    let b2 = ((x >> 16) & 0xff) as u8;
    let b3 = ((x >> 24) & 0xff) as u8;
    assert((b0 as u32) | ((b1 as u32) << 8) | ((b2 as u32) << 16) | ((b3 as u32) << 24) == x)
        by (bit_vector)
        requires
            b0 == (x & 0xff) as u8 && b1 == ((x >> 8) & 0xff) as u8 && b2 == ((x >> 16)
                & 0xff) as u8 && b3 == ((x >> 24) & 0xff) as u8,
    ;
}

/// Encoding the decoding of four bytes gives them back.
pub proof fn lemma_from_le32_round_trip(s: Seq<u8>)
    requires
        s.len() == 4,
    ensures
        spec_le32(spec_from_le32(s)) =~= s,
{
    let x = spec_from_le32(s);
    let s0 = s[0];
    let s1 = s[1];
    let s2 = s[2];
    let s3 = s[3];
    assert((x & 0xff) as u8 == s0 && ((x >> 8) & 0xff) as u8 == s1 && ((x >> 16) & 0xff) as u8
        == s2 && ((x >> 24) & 0xff) as u8 == s3) by (bit_vector)
        requires
            x == (s0 as u32) | ((s1 as u32) << 8) | ((s2 as u32) << 16) | ((s3 as u32) << 24),
    ;
}

/// Encodes a 16-bit integer as two little-endian bytes.
pub fn le16(x: u16) -> (r: Vec<u8>)
    ensures
        r@ == spec_le16(x),
{
    let mut v: Vec<u8> = Vec::new();
    v.push((x & 0xff) as u8);
    v.push(((x >> 8) & 0xff) as u8);
    proof {
        assert(v@ =~= spec_le16(x));
    }
    v
}

/// Decodes two little-endian bytes into a 16-bit integer.
pub fn from_le16(s: &[u8]) -> (r: u16)
    requires
        s@.len() == 2,
    ensures
        r == spec_from_le16(s@),
{
    (s[0] as u16) | ((s[1] as u16) << 8)
}

/// Encodes a 32-bit integer as four little-endian bytes.
pub fn le32(x: u32) -> (r: Vec<u8>)
    ensures
        r@ == spec_le32(x),
{
    let mut v: Vec<u8> = Vec::new();
    v.push((x & 0xff) as u8);
    v.push(((x >> 8) & 0xff) as u8);
    v.push(((x >> 16) & 0xff) as u8);
    v.push(((x >> 24) & 0xff) as u8);
    proof {
        assert(v@ =~= spec_le32(x));
    }
    v
}

/// Decodes four little-endian bytes into a 32-bit integer.
pub fn from_le32(s: &[u8]) -> (r: u32)
    requires
        s@.len() == 4,
    ensures
        r == spec_from_le32(s@),
{
    (s[0] as u32) | ((s[1] as u32) << 8) | ((s[2] as u32) << 16) | ((s[3] as u32) << 24)
}

} // verus!
