//! Little-endian byte layouts of the integers that travel on the wire.
use vstd::prelude::*;

verus! {

/// The four bytes of `x`, least significant first.
pub open spec fn u32_le(x: u32) -> Seq<u8> {
    seq![
        (x % 256) as u8,
        (x / 256 % 256) as u8,
        (x / 65536 % 256) as u8,
        (x / 16777216) as u8,
    ]
}

/// The number whose little-endian bytes are the first four of `s`.
pub open spec fn u32_of_le(s: Seq<u8>) -> u32
    recommends
        s.len() >= 4,
{
    (s[0] + s[1] * 256 + s[2] * 65536 + s[3] * 16777216) as u32
}

/// The two bytes of `x` in two's complement, least significant first.
pub open spec fn i16_le(x: i16) -> Seq<u8> {
    let u: int = if x < 0 { x + 65536 } else { x as int };
    seq![(u % 256) as u8, (u / 256) as u8]
}

/// The number whose two's complement little-endian bytes are the first two of `s`.
pub open spec fn i16_of_le(s: Seq<u8>) -> i16
    recommends
        s.len() >= 2,
{
    let u: int = s[0] + s[1] * 256;
    if u >= 32768 { (u - 65536) as i16 } else { u as i16 }
}

/// Decoding the bytes of a `u32` gives the number back.
pub proof fn lemma_u32_le_round_trip(x: u32)
    ensures
        u32_le(x).len() == 4,
        u32_of_le(u32_le(x)) == x,
{
}

/// Encoding the number read from four bytes gives the bytes back.
pub proof fn lemma_u32_le_bytes_round_trip(s: Seq<u8>)
    requires
        s.len() == 4,
    ensures
        u32_le(u32_of_le(s)) == s,
{
}

/// Decoding the bytes of an `i16` gives the number back.
pub proof fn lemma_i16_le_round_trip(x: i16)
    ensures
        i16_le(x).len() == 2,
        i16_of_le(i16_le(x)) == x,
{
}

/// Encoding the number read from two bytes gives the bytes back.
pub proof fn lemma_i16_le_bytes_round_trip(s: Seq<u8>)
    requires
        s.len() == 2,
    ensures
        i16_le(i16_of_le(s)) == s,
{
}

/// Appends the little-endian bytes of `x` to `out`.
pub fn push_u32_le(out: &mut Vec<u8>, x: u32)
    ensures
        final(out)@ == old(out)@ + u32_le(x),
{
    out.push((x % 256) as u8);
    out.push((x / 256 % 256) as u8);
    out.push((x / 65536 % 256) as u8);
    out.push((x / 16777216) as u8);
}

/// Appends the little-endian bytes of `x` to `out`.
pub fn push_i16_le(out: &mut Vec<u8>, x: i16)
    ensures
        final(out)@ == old(out)@ + i16_le(x),
{
    let u: i32 = if x < 0 { x as i32 + 65536 } else { x as i32 };
    out.push((u % 256) as u8);
    out.push((u / 256) as u8);
}

} // verus!
