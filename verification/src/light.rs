//! Point lights and their GPU layouts.
//!
//! A light is a position and an RGB color. The GPU reads each light as two
//! 16-byte-aligned 3-component vectors, so each vector is followed by four
//! bytes of zero padding. The fixed-capacity lights collection pads a list
//! of up to 128 lights with zero-valued entries.

use vstd::prelude::*;

use crate::buffers::seq_data_spec;
use crate::buffers::ToData;
use crate::codec::u32_le;
use crate::codec::Vec3Bits;
use crate::codec::F32_ZERO_BITS;

verus! {

/// The fixed capacity of the lights collection.
pub const MAX_LIGHTS: usize = 128;

/// A point light: a position and an RGB color, as float bit patterns.
#[derive(Clone, Copy, Debug, PartialEq, Eq, Structural)]
pub struct Light {
    pub position: Vec3Bits,
    pub color: Vec3Bits,
}

impl Light {
    pub fn new(position: Vec3Bits, color: Vec3Bits) -> (l: Light)
        ensures
            l == (Light { position, color }),
    {
        Light { position, color }
    }
}

/// The GPU-layout bytes of one light: position, four padding bytes, color,
/// four padding bytes.
pub open spec fn light_bytes(position: Vec3Bits, color: Vec3Bits) -> Seq<u8> {
    u32_le(position.x) + u32_le(position.y) + u32_le(position.z) + u32_le(0) + u32_le(color.x)
        + u32_le(color.y) + u32_le(color.z) + u32_le(0)
}

impl ToData for Light {
    open spec fn size_spec() -> nat {
        32
    }

    open spec fn data_spec(&self) -> Seq<u8> {
        light_bytes(self.position, self.color)
    }

    proof fn data_size(&self) {
    }

    fn to_data(&self) -> (r: Vec<u8>) {
        let mut out: Vec<u8> = Vec::new();
        crate::codec::push_u32_le(&mut out, self.position.x);
        crate::codec::push_u32_le(&mut out, self.position.y);
        crate::codec::push_u32_le(&mut out, self.position.z);
        crate::codec::push_u32_le(&mut out, 0);
        crate::codec::push_u32_le(&mut out, self.color.x);
        crate::codec::push_u32_le(&mut out, self.color.y);
        crate::codec::push_u32_le(&mut out, self.color.z);
        crate::codec::push_u32_le(&mut out, 0);
        out
    }
}

/// One entry of the lights collection, with its explicit padding words.
#[derive(Clone, Copy, Debug, PartialEq, Eq, Structural)]
pub struct LightUniform {
    pub position: Vec3Bits,
    pub padding_pos: u32,
    pub color: Vec3Bits,
    pub padding_col: u32,
}

/// The entry that stands for `light`: its vectors with zeroed padding.
pub open spec fn light_uniform_of(light: Light) -> LightUniform {
    LightUniform { position: light.position, padding_pos: 0, color: light.color, padding_col: 0 }
}

/// The zero-valued entry that pads the collection past its live count.
pub open spec fn zero_light_uniform() -> LightUniform {
    LightUniform {
        position: Vec3Bits { x: F32_ZERO_BITS, y: F32_ZERO_BITS, z: F32_ZERO_BITS },
        padding_pos: 0,
        color: Vec3Bits { x: F32_ZERO_BITS, y: F32_ZERO_BITS, z: F32_ZERO_BITS },
        padding_col: 0,
    }
}

impl LightUniform {
    pub fn from_light(light: &Light) -> (u: LightUniform)
        ensures
            u == light_uniform_of(*light),
    {
        LightUniform {
            position: light.position,
            padding_pos: 0,
            color: light.color,
            padding_col: 0,
        }
    }

    pub fn zero() -> (u: LightUniform)
        ensures
            u == zero_light_uniform(),
    {
        LightUniform {
            position: Vec3Bits { x: F32_ZERO_BITS, y: F32_ZERO_BITS, z: F32_ZERO_BITS },
            padding_pos: 0,
            color: Vec3Bits { x: F32_ZERO_BITS, y: F32_ZERO_BITS, z: F32_ZERO_BITS },
            padding_col: 0,
        }
    }
}

impl ToData for LightUniform {
    open spec fn size_spec() -> nat {
        32
    }

    open spec fn data_spec(&self) -> Seq<u8> {
        u32_le(self.position.x) + u32_le(self.position.y) + u32_le(self.position.z) + u32_le(
            self.padding_pos,
        ) + u32_le(self.color.x) + u32_le(self.color.y) + u32_le(self.color.z) + u32_le(
            self.padding_col,
        )
    }

    proof fn data_size(&self) {
    }

    fn to_data(&self) -> (r: Vec<u8>) {
        let mut out: Vec<u8> = Vec::new();
        crate::codec::push_u32_le(&mut out, self.position.x);
        crate::codec::push_u32_le(&mut out, self.position.y);
        crate::codec::push_u32_le(&mut out, self.position.z);
        crate::codec::push_u32_le(&mut out, self.padding_pos);
        crate::codec::push_u32_le(&mut out, self.color.x);
        crate::codec::push_u32_le(&mut out, self.color.y);
        crate::codec::push_u32_le(&mut out, self.color.z);
        crate::codec::push_u32_le(&mut out, self.padding_col);
        out
    }
}

/// The fixed-capacity lights collection: exactly 128 entries, the live
/// lights first, zero-valued padding after them.
#[derive(Clone, Debug)]
pub struct LightsUniform {
    pub entries: Vec<LightUniform>,
}

impl LightsUniform {
    /// The collection always holds exactly its capacity in entries.
    pub open spec fn wf(&self) -> bool {
        self.entries@.len() == MAX_LIGHTS
    }

    /// Builds the collection from up to 128 source lights: entry `i` is
    /// light `i` for each live light, in original order, and every entry
    /// past the live count is zero-valued.
    pub fn from_lights(lights: &Vec<Light>) -> (r: LightsUniform)
        requires
            lights@.len() <= MAX_LIGHTS,
        ensures
            r.wf(),
            forall|i: int|
                0 <= i < lights@.len() ==> r.entries@[i] == light_uniform_of(lights@[i]),
            forall|i: int|
                lights@.len() <= i < MAX_LIGHTS ==> r.entries@[i] == zero_light_uniform(),
    {
        let mut entries: Vec<LightUniform> = Vec::new();
        let mut i: usize = 0;
        while i < lights.len()
            invariant
                i <= lights@.len(),
                entries@.len() == i,
                forall|j: int| 0 <= j < i ==> entries@[j] == light_uniform_of(lights@[j]),
            decreases lights@.len() - i,
        {
            entries.push(LightUniform::from_light(&lights[i]));
            i = i + 1;
        }
        while entries.len() < MAX_LIGHTS
            invariant
                lights@.len() <= entries@.len() <= MAX_LIGHTS,
                forall|j: int|
                    0 <= j < lights@.len() ==> entries@[j] == light_uniform_of(lights@[j]),
                forall|j: int|
                    lights@.len() <= j < entries@.len() ==> entries@[j] == zero_light_uniform(),
            decreases MAX_LIGHTS - entries@.len(),
        {
            entries.push(LightUniform::zero());
        }
        LightsUniform { entries }
    }

    /// The collection's GPU bytes: each entry encoded in order.
    pub fn encoded(&self) -> (r: Vec<u8>)
        ensures
            r@ == seq_data_spec(self.entries@),
    {
        crate::buffers::encode_slice(&self.entries)
    }
}

} // verus!
