use gridlight::buffers::ToData;
use gridlight::codec::Vec3Bits;
use gridlight::commands::BufferId;
use gridlight::commands::Cmd;
use gridlight::commands::CommandList;
use gridlight::commands::IndexFormat;
use gridlight::quad::DrawQuad;
use gridlight::quad::Instance;
use gridlight::quad::Quad;
use gridlight::quad::InstanceRaw;
use gridlight::renderer::Context;
use gridlight::renderer::TextureFormat;
use gridlight::vertex::Vertex;
use gridlight::vertex::VertexFormat;
use gridlight::vertex::VertexStepMode;

fn ctx() -> Context {
    Context::new(800, 600, TextureFormat::Bgra8UnormSrgb)
}

#[test]
fn quad_has_four_vertices_six_indices() {
    let q = Quad::new(&ctx());
    assert_eq!(q.num_indices, 6);
    // Four vertices of 20 bytes each (3 position + 2 texture floats).
    assert_eq!(q.vertices.bytes().len(), 80);
    // Six 16-bit indices.
    let mut expected: Vec<u8> = Vec::new();
    for i in [0u16, 1, 3, 1, 2, 3] {
        expected.extend_from_slice(&i.to_le_bytes());
    }
    assert_eq!(*q.indices.bytes(), expected);
}

#[test]
fn quad_vertices_are_the_unit_square() {
    let q = Quad::new(&ctx());
    let b = q.vertices.bytes();
    // First vertex: position (-0.5, 0.5, 0), texture (0, 0).
    assert_eq!(&b[0..4], &(-0.5f32).to_bits().to_le_bytes());
    assert_eq!(&b[4..8], &0.5f32.to_bits().to_le_bytes());
    assert_eq!(&b[8..12], &0.0f32.to_bits().to_le_bytes());
    assert_eq!(&b[12..16], &0.0f32.to_bits().to_le_bytes());
    assert_eq!(&b[16..20], &0.0f32.to_bits().to_le_bytes());
    // Third vertex: position (0.5, -0.5, 0), texture (1, 1).
    assert_eq!(&b[40..44], &0.5f32.to_bits().to_le_bytes());
    assert_eq!(&b[44..48], &(-0.5f32).to_bits().to_le_bytes());
    assert_eq!(&b[52..56], &1.0f32.to_bits().to_le_bytes());
    assert_eq!(&b[56..60], &1.0f32.to_bits().to_le_bytes());
}

#[test]
fn draw_quad_indexed_records_three_commands() {
    let q = Quad::new(&ctx());
    let mut list = CommandList::new();
    list.draw_quad_indexed(&q, 0, 42);
    assert_eq!(list.commands.len(), 3);
    assert!(matches!(
        list.commands[0],
        Cmd::SetVertexBuffer { slot: 0, buffer: BufferId::QuadVertices, first_byte: 0, byte_len: 80 }
    ));
    assert!(matches!(
        list.commands[1],
        Cmd::SetIndexBuffer { buffer: BufferId::QuadIndices, format: IndexFormat::Uint16 }
    ));
    assert!(matches!(
        list.commands[2],
        Cmd::DrawIndexed { index_count: 6, base_vertex: 0, first_instance: 0, instance_count: 42 }
    ));
}

#[test]
fn draw_quad_draws_one_instance() {
    let q = Quad::new(&ctx());
    let mut list = CommandList::new();
    list.draw_quad(&q);
    assert_eq!(list.commands.len(), 3);
    assert!(matches!(
        list.commands[2],
        Cmd::DrawIndexed { index_count: 6, base_vertex: 0, first_instance: 0, instance_count: 1 }
    ));
}

#[test]
fn zero_instance_encodes_identity_matrix() {
    // The identity rotation with a zero translation yields exactly the
    // identity matrix.
    let inst = Instance { position: Vec3Bits::zero() };
    let bytes = inst.to_data();
    let mut expected: Vec<u8> = Vec::new();
    let identity: [f32; 16] =
        [1.0, 0.0, 0.0, 0.0, 0.0, 1.0, 0.0, 0.0, 0.0, 0.0, 1.0, 0.0, 0.0, 0.0, 0.0, 1.0];
    for f in identity {
        expected.extend_from_slice(&f.to_bits().to_le_bytes());
    }
    assert_eq!(bytes, expected);
}

#[test]
fn instance_matrix_is_translation_in_last_column() {
    let inst = Instance {
        position: Vec3Bits { x: 3.0f32.to_bits(), y: (-1.5f32).to_bits(), z: 0.25f32.to_bits() },
    };
    let raw = inst.to_raw();
    // Column-major: entries 12..14 are the translation column.
    assert_eq!(raw.model[12], 3.0f32.to_bits());
    assert_eq!(raw.model[13], (-1.5f32).to_bits());
    assert_eq!(raw.model[14], 0.25f32.to_bits());
    assert_eq!(raw.model[15], 1.0f32.to_bits());
    assert_eq!(raw.model[0], 1.0f32.to_bits());
    assert_eq!(raw.model[5], 1.0f32.to_bits());
    assert_eq!(raw.model[10], 1.0f32.to_bits());
    // The encoded bytes are those sixteen words in order.
    let bytes = inst.to_data();
    assert_eq!(bytes.len(), 64);
    assert_eq!(&bytes[48..52], &3.0f32.to_bits().to_le_bytes());
}

#[test]
fn instance_layout_is_four_vec4_columns() {
    let layout = InstanceRaw::desc();
    assert_eq!(layout.array_stride, 64);
    assert!(matches!(layout.step_mode, VertexStepMode::Instance));
    assert_eq!(layout.attributes.len(), 4);
    let expected_offsets = [0u64, 16, 32, 48];
    let expected_locations = [5u32, 6, 7, 8];
    for (i, attr) in layout.attributes.iter().enumerate() {
        assert_eq!(attr.offset, expected_offsets[i]);
        assert_eq!(attr.shader_location, expected_locations[i]);
        assert!(matches!(attr.format, VertexFormat::Float32x4));
    }
}

#[test]
fn vertex_layout_is_position_then_texture() {
    let layout = Vertex::desc();
    assert_eq!(layout.array_stride, 20);
    assert!(matches!(layout.step_mode, VertexStepMode::Vertex));
    assert_eq!(layout.attributes.len(), 2);
    assert_eq!(layout.attributes[0].offset, 0);
    assert_eq!(layout.attributes[0].shader_location, 0);
    assert!(matches!(layout.attributes[0].format, VertexFormat::Float32x3));
    assert_eq!(layout.attributes[1].offset, 12);
    assert_eq!(layout.attributes[1].shader_location, 1);
    assert!(matches!(layout.attributes[1].format, VertexFormat::Float32x2));
}

#[test]
fn vertex_encodes_twenty_bytes() {
    let v = Vertex::new(
        Vec3Bits { x: 1.0f32.to_bits(), y: 2.0f32.to_bits(), z: 3.0f32.to_bits() },
        0.25f32.to_bits(),
        0.75f32.to_bits(),
    );
    let bytes = v.to_data();
    assert_eq!(bytes.len(), 20);
    assert_eq!(&bytes[0..4], &1.0f32.to_bits().to_le_bytes());
    assert_eq!(&bytes[12..16], &0.25f32.to_bits().to_le_bytes());
    assert_eq!(&bytes[16..20], &0.75f32.to_bits().to_le_bytes());
}
