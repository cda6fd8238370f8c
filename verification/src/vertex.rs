//! Mesh vertices and vertex-buffer layout descriptors.
//!
//! A layout descriptor tells the pipeline how to slice a vertex or instance
//! stream into shader inputs: a stride, a step mode, and a list of
//! attributes, each with a byte offset, a format and a shader location.

use vstd::prelude::*;

use crate::codec::u32_le;
use crate::codec::Vec3Bits;

verus! {

/// The format of one vertex attribute.
#[derive(Clone, Copy, Debug, PartialEq, Eq, Structural)]
pub enum VertexFormat {
    Float32x2,
    Float32x3,
    Float32x4,
}

impl VertexFormat {
    /// The byte size of one attribute of this format.
    pub open spec fn size_spec(self) -> nat {
        match self {
            VertexFormat::Float32x2 => 8,
            VertexFormat::Float32x3 => 12,
            VertexFormat::Float32x4 => 16,
        }
    }
}

/// Whether a stream advances per vertex or per instance.
#[derive(Clone, Copy, Debug, PartialEq, Eq, Structural)]
pub enum VertexStepMode {
    Vertex,
    Instance,
}

/// One attribute of a vertex stream.
#[derive(Clone, Copy, Debug, PartialEq, Eq, Structural)]
pub struct VertexAttribute {
    pub offset: u64,
    pub shader_location: u32,
    pub format: VertexFormat,
}

/// The layout of one vertex or instance stream.
#[derive(Clone, Debug)]
pub struct VertexBufferLayout {
    pub array_stride: u64,
    pub step_mode: VertexStepMode,
    pub attributes: Vec<VertexAttribute>,
}

/// The attributes starting at `offset` are packed: each starts where the
/// previous one ended, and the last ends exactly at `stride`.
pub open spec fn packed_exactly(attrs: Seq<VertexAttribute>, offset: int, stride: int) -> bool
    decreases attrs.len(),
{
    if attrs.len() == 0 {
        offset == stride
    } else {
        attrs[0].offset == offset && packed_exactly(
            attrs.skip(1),
            offset + attrs[0].format.size_spec(),
            stride,
        )
    }
}

impl VertexBufferLayout {
    /// The attributes are packed from offset zero to exactly the stride,
    /// and shader locations are unique.
    pub open spec fn wf(&self) -> bool {
        &&& packed_exactly(self.attributes@, 0, self.array_stride as int)
        &&& forall|i: int, j: int|
            0 <= i < j < self.attributes@.len() ==> (#[trigger] self.attributes@[i]).shader_location
                != (#[trigger] self.attributes@[j]).shader_location
    }
}

/// A textured mesh vertex: a 3-component position and a 2-component texture
/// coordinate, all carried as 32-bit float bit patterns.
#[derive(Clone, Copy, Debug, PartialEq, Eq, Structural)]
pub struct Vertex {
    pub position: Vec3Bits,
    pub tex_u: u32,
    pub tex_v: u32,
}

impl Vertex {
    pub fn new(position: Vec3Bits, tex_u: u32, tex_v: u32) -> (v: Vertex)
        ensures
            v == (Vertex { position, tex_u, tex_v }),
    {
        Vertex { position, tex_u, tex_v }
    }

    /// The layout of the vertex stream: position at shader location 0,
    /// texture coordinates at location 1, advancing per vertex.
    pub fn desc() -> (r: VertexBufferLayout)
        ensures
            r.array_stride == 20,
            r.step_mode == VertexStepMode::Vertex,
            r.attributes@ == seq![
                VertexAttribute { offset: 0, shader_location: 0, format: VertexFormat::Float32x3 },
                VertexAttribute { offset: 12, shader_location: 1, format: VertexFormat::Float32x2 },
            ],
            r.wf(),
    {
        let mut attributes: Vec<VertexAttribute> = Vec::new();
        attributes.push(
            VertexAttribute { offset: 0, shader_location: 0, format: VertexFormat::Float32x3 },
        );
        attributes.push(
            VertexAttribute { offset: 12, shader_location: 1, format: VertexFormat::Float32x2 },
        );
        proof {
            assert(attributes@ =~= seq![
                VertexAttribute { offset: 0, shader_location: 0, format: VertexFormat::Float32x3 },
                VertexAttribute { offset: 12, shader_location: 1, format: VertexFormat::Float32x2 },
            ]);
            reveal_with_fuel(packed_exactly, 4);
            assert(attributes@.skip(1) =~= seq![
                VertexAttribute { offset: 12, shader_location: 1, format: VertexFormat::Float32x2 },
            ]);
            assert(attributes@.skip(1).skip(1) =~= Seq::<VertexAttribute>::empty());
            assert(packed_exactly(attributes@, 0, 20));
        }
        VertexBufferLayout { array_stride: 20, step_mode: VertexStepMode::Vertex, attributes }
    }
}

impl crate::buffers::ToData for Vertex {
    open spec fn size_spec() -> nat {
        20
    }

    open spec fn data_spec(&self) -> Seq<u8> {
        u32_le(self.position.x) + u32_le(self.position.y) + u32_le(self.position.z) + u32_le(
            self.tex_u,
        ) + u32_le(self.tex_v)
    }

    proof fn data_size(&self) {
    }

    fn to_data(&self) -> (r: Vec<u8>) {
        let mut out: Vec<u8> = Vec::new();
        crate::codec::push_u32_le(&mut out, self.position.x);
        crate::codec::push_u32_le(&mut out, self.position.y);
        crate::codec::push_u32_le(&mut out, self.position.z);
        crate::codec::push_u32_le(&mut out, self.tex_u);
        crate::codec::push_u32_le(&mut out, self.tex_v);
        out
    }
}

} // verus!
