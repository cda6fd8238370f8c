//! Little-endian byte encoding for GPU-bound data.
//!
//! Scalars that the GPU reads as 32-bit floats are carried throughout the
//! crate as their IEEE-754 bit patterns (`u32`), so encoding a host value to
//! its GPU layout is pure integer work: each 32-bit word becomes four bytes,
//! least significant first.

use vstd::prelude::*;

verus! {

/// Bit pattern of the 32-bit float `0.0`.
pub const F32_ZERO_BITS: u32 = 0;

/// Bit pattern of the 32-bit float `1.0`.
pub const F32_ONE_BITS: u32 = 0x3F80_0000;

/// Bit pattern of the 32-bit float `0.5`.
pub const F32_HALF_BITS: u32 = 0x3F00_0000;

/// Bit pattern of the 32-bit float `-0.5`.
pub const F32_NEG_HALF_BITS: u32 = 0xBF00_0000;

/// Bit pattern of the 32-bit float `2.0`.
pub const F32_TWO_BITS: u32 = 0x4000_0000;

/// Bit pattern of the 32-bit float `-2.0`.
pub const F32_NEG_TWO_BITS: u32 = 0xC000_0000;

/// Bit pattern of the 32-bit float `0.1`.
pub const F32_TENTH_BITS: u32 = 0x3DCC_CCCD;

/// Bit pattern of the 32-bit float `-0.1`.
pub const F32_NEG_TENTH_BITS: u32 = 0xBDCC_CCCD;

/// Bit pattern of the 32-bit float `0.2`.
pub const F32_FIFTH_BITS: u32 = 0x3E4C_CCCD;

/// Bit pattern of the 32-bit float `100.0`.
pub const F32_HUNDRED_BITS: u32 = 0x42C8_0000;

/// Bit pattern of the 32-bit float nearest to a 45-degree angle in radians.
pub const F32_RADIANS_45_DEG_BITS: u32 = 0x3F49_0FDB;

/// A 3-component vector of 32-bit float bit patterns.
#[derive(Clone, Copy, Debug, PartialEq, Eq, Structural)]
pub struct Vec3Bits {
    pub x: u32,
    pub y: u32,
    pub z: u32,
}

impl Vec3Bits {
    /// The vector whose three components are the float `0.0`.
    pub fn zero() -> (v: Vec3Bits)
        ensures
            v == (Vec3Bits { x: F32_ZERO_BITS, y: F32_ZERO_BITS, z: F32_ZERO_BITS }),
    {
        Vec3Bits { x: F32_ZERO_BITS, y: F32_ZERO_BITS, z: F32_ZERO_BITS }
    }
}

/// The four little-endian bytes of a 32-bit word.
pub open spec fn u32_le(x: u32) -> Seq<u8> {
    seq![
        (x % 256) as u8,
        ((x / 256) % 256) as u8,
        ((x / 65536) % 256) as u8,
        ((x / 16777216) % 256) as u8,
    ]
}

/// The two little-endian bytes of a 16-bit word.
pub open spec fn u16_le(x: u16) -> Seq<u8> {
    seq![(x % 256) as u8, ((x / 256) % 256) as u8]
}

/// Appends the four little-endian bytes of `x` to `out`.
pub fn push_u32_le(out: &mut Vec<u8>, x: u32)
    ensures
        final(out)@ == old(out)@ + u32_le(x),
{
    out.push((x % 256) as u8);
    out.push(((x / 256) % 256) as u8);
    out.push(((x / 65536) % 256) as u8);
    out.push(((x / 16777216) % 256) as u8);
    proof {
        assert(out@ =~= old(out)@ + u32_le(x));
    }
}

/// Appends the two little-endian bytes of `x` to `out`.
pub fn push_u16_le(out: &mut Vec<u8>, x: u16)
    ensures
        final(out)@ == old(out)@ + u16_le(x),
{
    out.push((x % 256) as u8);
    out.push(((x / 256) % 256) as u8);
    proof {
        assert(out@ =~= old(out)@ + u16_le(x));
    }
}

/// The little-endian encoding of a whole sequence of 32-bit words.
pub open spec fn u32s_le(xs: Seq<u32>) -> Seq<u8>
    decreases xs.len(),
{
    if xs.len() == 0 {
        Seq::empty()
    } else {
        u32s_le(xs.drop_last()) + u32_le(xs.last())
    }
}

/// A sequence of `n` words encodes to `4 * n` bytes.
pub proof fn lemma_u32s_le_len(xs: Seq<u32>)
    ensures
        u32s_le(xs).len() == 4 * xs.len(),
    decreases xs.len(),
{
    if xs.len() > 0 {
        lemma_u32s_le_len(xs.drop_last());
    }
}

/// Encodes each word in order, least significant byte first.
pub fn encode_u32s(values: &Vec<u32>) -> (r: Vec<u8>)
    ensures
        r@ == u32s_le(values@),
{
    let mut out: Vec<u8> = Vec::new();
    let mut i: usize = 0;
    while i < values.len()
        invariant
            i <= values.len(),
            out@ == u32s_le(values@.take(i as int)),
        decreases values.len() - i,
    {
        push_u32_le(&mut out, values[i]);
        proof {
            assert(values@.take(i + 1).drop_last() =~= values@.take(i as int));
            assert(values@.take(i + 1).last() == values@[i as int]);
        }
        i = i + 1;
    }
    proof {
        assert(values@.take(values@.len() as int) =~= values@);
    }
    out
}

/// The little-endian encoding of a sequence of 16-bit words.
pub open spec fn u16s_le(xs: Seq<u16>) -> Seq<u8>
    decreases xs.len(),
{
    if xs.len() == 0 {
        Seq::empty()
    } else {
        u16s_le(xs.drop_last()) + u16_le(xs.last())
    }
}

/// Encodes each 16-bit word in order, least significant byte first.
pub fn encode_u16s(values: &Vec<u16>) -> (r: Vec<u8>)
    ensures
        r@ == u16s_le(values@),
{
    let mut out: Vec<u8> = Vec::new();
    let mut i: usize = 0;
    while i < values.len()
        invariant
            i <= values.len(),
            out@ == u16s_le(values@.take(i as int)),
        decreases values.len() - i,
    {
        push_u16_le(&mut out, values[i]);
        proof {
            assert(values@.take(i + 1).drop_last() =~= values@.take(i as int));
            assert(values@.take(i + 1).last() == values@[i as int]);
        }
        i = i + 1;
    }
    proof {
        assert(values@.take(values@.len() as int) =~= values@);
    }
    out
}

} // verus!
