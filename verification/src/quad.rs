//! The quad mesh, its draw commands, and the per-instance transform.
//!
//! An instance carries a translation; its GPU form is a 4-by-4 model matrix
//! in column-major order, which for a pure translation is the identity
//! matrix with the position in the last column — built here exactly, with
//! no floating-point arithmetic.

use vstd::prelude::*;

use crate::buffers::seq_data_spec;
use crate::buffers::RawBuffer;
use crate::buffers::ToData;
use crate::codec::u16s_le;
use crate::codec::u32s_le;
use crate::codec::Vec3Bits;
use crate::codec::F32_HALF_BITS;
use crate::codec::F32_NEG_HALF_BITS;
use crate::codec::F32_ONE_BITS;
use crate::codec::F32_ZERO_BITS;
use crate::commands::BufferId;
use crate::commands::Cmd;
use crate::commands::CommandList;
use crate::commands::IndexFormat;
use crate::renderer::Context;
use crate::vertex::Vertex;
use crate::vertex::VertexAttribute;
use crate::vertex::VertexBufferLayout;
use crate::vertex::VertexFormat;
use crate::vertex::VertexStepMode;

verus! {

/// The four corners of a unit quad in the plane, each with its texture
/// coordinate, in counter-clockwise winding order.
pub open spec fn quad_vertices() -> Seq<Vertex> {
    seq![
        Vertex {
            position: Vec3Bits { x: F32_NEG_HALF_BITS, y: F32_HALF_BITS, z: F32_ZERO_BITS },
            tex_u: F32_ZERO_BITS,
            tex_v: F32_ZERO_BITS,
        },
        Vertex {
            position: Vec3Bits { x: F32_NEG_HALF_BITS, y: F32_NEG_HALF_BITS, z: F32_ZERO_BITS },
            tex_u: F32_ZERO_BITS,
            tex_v: F32_ONE_BITS,
        },
        Vertex {
            position: Vec3Bits { x: F32_HALF_BITS, y: F32_NEG_HALF_BITS, z: F32_ZERO_BITS },
            tex_u: F32_ONE_BITS,
            tex_v: F32_ONE_BITS,
        },
        Vertex {
            position: Vec3Bits { x: F32_HALF_BITS, y: F32_HALF_BITS, z: F32_ZERO_BITS },
            tex_u: F32_ONE_BITS,
            tex_v: F32_ZERO_BITS,
        },
    ]
}

/// The quad's two triangles as indices into `quad_vertices`.
pub open spec fn quad_indices() -> Seq<u16> {
    seq![0u16, 1u16, 3u16, 1u16, 2u16, 3u16]
}

/// The quad mesh: one vertex buffer, one index buffer, and the index count.
pub struct Quad {
    pub vertices: RawBuffer,
    pub indices: RawBuffer,
    pub num_indices: u32,
}

impl Quad {
    /// The buffers hold exactly the quad's encoded vertices and indices,
    /// with vertex-stream and index-stream usage respectively.
    pub open spec fn wf(&self) -> bool {
        &&& self.vertices.contents@ == seq_data_spec(quad_vertices())
        &&& self.vertices.usage == (crate::buffers::BufferUsages {
            vertex: true,
            index: false,
            uniform: false,
            storage: false,
            copy_dst: false,
        })
        &&& self.indices.contents@ == u16s_le(quad_indices())
        &&& self.indices.usage == (crate::buffers::BufferUsages {
            vertex: false,
            index: true,
            uniform: false,
            storage: false,
            copy_dst: false,
        })
        &&& self.num_indices == 6
    }

    pub fn new(_context: &Context) -> (q: Quad)
        ensures
            q.wf(),
    {
        let mut verts: Vec<Vertex> = Vec::new();
        verts.push(
            Vertex {
                position: Vec3Bits { x: F32_NEG_HALF_BITS, y: F32_HALF_BITS, z: F32_ZERO_BITS },
                tex_u: F32_ZERO_BITS,
                tex_v: F32_ZERO_BITS,
            },
        );
        verts.push(
            Vertex {
                position: Vec3Bits { x: F32_NEG_HALF_BITS, y: F32_NEG_HALF_BITS, z: F32_ZERO_BITS },
                tex_u: F32_ZERO_BITS,
                tex_v: F32_ONE_BITS,
            },
        );
        verts.push(
            Vertex {
                position: Vec3Bits { x: F32_HALF_BITS, y: F32_NEG_HALF_BITS, z: F32_ZERO_BITS },
                tex_u: F32_ONE_BITS,
                tex_v: F32_ONE_BITS,
            },
        );
        verts.push(
            Vertex {
                position: Vec3Bits { x: F32_HALF_BITS, y: F32_HALF_BITS, z: F32_ZERO_BITS },
                tex_u: F32_ONE_BITS,
                tex_v: F32_ZERO_BITS,
            },
        );
        proof {
            assert(verts@ =~= quad_vertices());
        }
        let vertices = crate::buffers::vertex(crate::buffers::encode_slice(&verts));
        let mut idx: Vec<u16> = Vec::new();
        idx.push(0);
        idx.push(1);
        idx.push(3);
        idx.push(1);
        idx.push(2);
        idx.push(3);
        proof {
            assert(idx@ =~= quad_indices());
        }
        let indices = crate::buffers::index(crate::codec::encode_u16s(&idx));
        Quad { vertices, indices, num_indices: 6 }
    }
}

/// The pass commands that draw the quad over an instance range: bind its
/// vertex stream at slot 0, bind its 16-bit index stream, and issue one
/// indexed draw over all six indices.
pub open spec fn quad_draw_cmds(quad: Quad, first_instance: u32, instance_end: u32) -> Seq<Cmd> {
    seq![
        Cmd::SetVertexBuffer {
            slot: 0,
            buffer: BufferId::QuadVertices,
            first_byte: 0,
            byte_len: quad.vertices.contents@.len() as usize,
        },
        Cmd::SetIndexBuffer { buffer: BufferId::QuadIndices, format: IndexFormat::Uint16 },
        Cmd::DrawIndexed {
            index_count: quad.num_indices,
            base_vertex: 0,
            first_instance,
            instance_count: (instance_end - first_instance) as u32,
        },
    ]
}

/// Recording the quad's draw into a command stream.
pub trait DrawQuad {
    /// The commands recorded so far.
    spec fn recorded(&self) -> Seq<Cmd>;

    /// Draws one instance of the quad.
    fn draw_quad(&mut self, quad: &Quad)
        ensures
            final(self).recorded() == old(self).recorded() + quad_draw_cmds(*quad, 0, 1),
    ;

    /// Draws the quad once per instance in `[first_instance, instance_end)`.
    fn draw_quad_indexed(&mut self, quad: &Quad, first_instance: u32, instance_end: u32)
        requires
            first_instance <= instance_end,
        ensures
            final(self).recorded() == old(self).recorded() + quad_draw_cmds(
                *quad,
                first_instance,
                instance_end,
            ),
    ;
}

impl DrawQuad for CommandList {
    open spec fn recorded(&self) -> Seq<Cmd> {
        self.commands@
    }

    fn draw_quad(&mut self, quad: &Quad) {
        self.draw_quad_indexed(quad, 0, 1);
    }

    fn draw_quad_indexed(&mut self, quad: &Quad, first_instance: u32, instance_end: u32) {
        let byte_len = quad.vertices.bytes().len();
        self.push(
            Cmd::SetVertexBuffer {
                slot: 0,
                buffer: BufferId::QuadVertices,
                first_byte: 0,
                byte_len,
            },
        );
        self.push(Cmd::SetIndexBuffer { buffer: BufferId::QuadIndices, format: IndexFormat::Uint16 });
        self.push(
            Cmd::DrawIndexed {
                index_count: quad.num_indices,
                base_vertex: 0,
                first_instance,
                instance_count: instance_end - first_instance,
            },
        );
        proof {
            assert(self.commands@ =~= old(self).commands@ + quad_draw_cmds(
                *quad,
                first_instance,
                instance_end,
            ));
        }
    }
}

/// A quad instance: a translation in the plane of the grid.
#[derive(Clone, Copy, Debug, PartialEq, Eq, Structural)]
pub struct Instance {
    pub position: Vec3Bits,
}

/// The column-major model matrix of a pure translation: the identity with
/// the position in the fourth column.
pub open spec fn translation_matrix_bits(p: Vec3Bits) -> Seq<u32> {
    seq![
        F32_ONE_BITS, F32_ZERO_BITS, F32_ZERO_BITS, F32_ZERO_BITS,
        F32_ZERO_BITS, F32_ONE_BITS, F32_ZERO_BITS, F32_ZERO_BITS,
        F32_ZERO_BITS, F32_ZERO_BITS, F32_ONE_BITS, F32_ZERO_BITS,
        p.x, p.y, p.z, F32_ONE_BITS,
    ]
}

/// The column-major identity matrix.
pub open spec fn identity_matrix_bits() -> Seq<u32> {
    seq![
        F32_ONE_BITS, F32_ZERO_BITS, F32_ZERO_BITS, F32_ZERO_BITS,
        F32_ZERO_BITS, F32_ONE_BITS, F32_ZERO_BITS, F32_ZERO_BITS,
        F32_ZERO_BITS, F32_ZERO_BITS, F32_ONE_BITS, F32_ZERO_BITS,
        F32_ZERO_BITS, F32_ZERO_BITS, F32_ZERO_BITS, F32_ONE_BITS,
    ]
}

/// An instance with the identity rotation and a zero translation encodes to
/// exactly the identity matrix.
pub proof fn lemma_zero_instance_is_identity(p: Vec3Bits)
    requires
        p == (Vec3Bits { x: F32_ZERO_BITS, y: F32_ZERO_BITS, z: F32_ZERO_BITS }),
    ensures
        translation_matrix_bits(p) == identity_matrix_bits(),
{
    assert(translation_matrix_bits(p) =~= identity_matrix_bits());
}

/// The GPU form of one instance: its model matrix, sixteen 32-bit float bit
/// patterns in column-major order.
#[derive(Clone, Copy, Debug)]
pub struct InstanceRaw {
    pub model: [u32; 16],
}

impl Instance {
    /// The instance's model matrix.
    pub fn to_raw(&self) -> (r: InstanceRaw)
        ensures
            r.model@ == translation_matrix_bits(self.position),
    {
        let model: [u32; 16] = [
            F32_ONE_BITS,
            F32_ZERO_BITS,
            F32_ZERO_BITS,
            F32_ZERO_BITS,
            F32_ZERO_BITS,
            F32_ONE_BITS,
            F32_ZERO_BITS,
            F32_ZERO_BITS,
            F32_ZERO_BITS,
            F32_ZERO_BITS,
            F32_ONE_BITS,
            F32_ZERO_BITS,
            self.position.x,
            self.position.y,
            self.position.z,
            F32_ONE_BITS,
        ];
        proof {
            assert(model@ =~= translation_matrix_bits(self.position));
        }
        InstanceRaw { model }
    }
}

impl ToData for Instance {
    open spec fn size_spec() -> nat {
        64
    }

    open spec fn data_spec(&self) -> Seq<u8> {
        u32s_le(translation_matrix_bits(self.position))
    }

    proof fn data_size(&self) {
        crate::codec::lemma_u32s_le_len(translation_matrix_bits(self.position));
    }

    fn to_data(&self) -> (r: Vec<u8>) {
        let mut words: Vec<u32> = Vec::new();
        words.push(F32_ONE_BITS);
        words.push(F32_ZERO_BITS);
        words.push(F32_ZERO_BITS);
        words.push(F32_ZERO_BITS);
        words.push(F32_ZERO_BITS);
        words.push(F32_ONE_BITS);
        words.push(F32_ZERO_BITS);
        words.push(F32_ZERO_BITS);
        words.push(F32_ZERO_BITS);
        words.push(F32_ZERO_BITS);
        words.push(F32_ONE_BITS);
        words.push(F32_ZERO_BITS);
        words.push(self.position.x);
        words.push(self.position.y);
        words.push(self.position.z);
        words.push(F32_ONE_BITS);
        proof {
            assert(words@ =~= translation_matrix_bits(self.position));
        }
        crate::codec::encode_u32s(&words)
    }
}

impl InstanceRaw {
    /// The layout of the instance stream: one 4-by-4 matrix per instance as
    /// four packed 4-component columns at shader locations 5 through 8,
    /// advancing per instance.
    pub fn desc() -> (r: VertexBufferLayout)
        ensures
            r.array_stride == 64,
            r.step_mode == VertexStepMode::Instance,
            r.attributes@ == seq![
                VertexAttribute { offset: 0, shader_location: 5, format: VertexFormat::Float32x4 },
                VertexAttribute { offset: 16, shader_location: 6, format: VertexFormat::Float32x4 },
                VertexAttribute { offset: 32, shader_location: 7, format: VertexFormat::Float32x4 },
                VertexAttribute { offset: 48, shader_location: 8, format: VertexFormat::Float32x4 },
            ],
            r.wf(),
    {
        let mut attributes: Vec<VertexAttribute> = Vec::new();
        attributes.push(
            VertexAttribute { offset: 0, shader_location: 5, format: VertexFormat::Float32x4 },
        );
        attributes.push(
            VertexAttribute { offset: 16, shader_location: 6, format: VertexFormat::Float32x4 },
        );
        attributes.push(
            VertexAttribute { offset: 32, shader_location: 7, format: VertexFormat::Float32x4 },
        );
        attributes.push(
            VertexAttribute { offset: 48, shader_location: 8, format: VertexFormat::Float32x4 },
        );
        proof {
            assert(attributes@ =~= seq![
                VertexAttribute { offset: 0, shader_location: 5, format: VertexFormat::Float32x4 },
                VertexAttribute { offset: 16, shader_location: 6, format: VertexFormat::Float32x4 },
                VertexAttribute { offset: 32, shader_location: 7, format: VertexFormat::Float32x4 },
                VertexAttribute { offset: 48, shader_location: 8, format: VertexFormat::Float32x4 },
            ]);
            reveal_with_fuel(crate::vertex::packed_exactly, 6);
            assert(attributes@.skip(1) =~= seq![
                VertexAttribute { offset: 16, shader_location: 6, format: VertexFormat::Float32x4 },
                VertexAttribute { offset: 32, shader_location: 7, format: VertexFormat::Float32x4 },
                VertexAttribute { offset: 48, shader_location: 8, format: VertexFormat::Float32x4 },
            ]);
            assert(attributes@.skip(1).skip(1) =~= seq![
                VertexAttribute { offset: 32, shader_location: 7, format: VertexFormat::Float32x4 },
                VertexAttribute { offset: 48, shader_location: 8, format: VertexFormat::Float32x4 },
            ]);
            assert(attributes@.skip(1).skip(1).skip(1) =~= seq![
                VertexAttribute { offset: 48, shader_location: 8, format: VertexFormat::Float32x4 },
            ]);
            assert(attributes@.skip(1).skip(1).skip(1).skip(1)
                =~= Seq::<VertexAttribute>::empty());
            assert(crate::vertex::packed_exactly(attributes@, 0, 64));
        }
        VertexBufferLayout { array_stride: 64, step_mode: VertexStepMode::Instance, attributes }
    }
}

} // verus!
