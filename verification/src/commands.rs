//! The command vocabulary of one frame.
//!
//! A frame plan is the verified record of everything one frame asks of the
//! GPU: which buffers to overwrite, and the single render pass's pipeline,
//! binding, stream and draw commands, in order. The unverified front end
//! replays a plan verbatim on the device.

use vstd::prelude::*;

verus! {

/// Bit pattern of the 64-bit float `0.1` (background red channel).
pub const F64_TENTH_BITS: u64 = 0x3FB9_9999_9999_999A;

/// Bit pattern of the 64-bit float `0.2` (background green channel).
pub const F64_FIFTH_BITS: u64 = 0x3FC9_9999_9999_999A;

/// Bit pattern of the 64-bit float `0.3` (background blue channel).
pub const F64_THREE_TENTHS_BITS: u64 = 0x3FD3_3333_3333_3333;

/// Bit pattern of the 64-bit float `1.0` (background alpha channel).
pub const F64_ONE_BITS: u64 = 0x3FF0_0000_0000_0000;

/// The buffers a frame plan may reference.
#[derive(Clone, Copy, Debug, PartialEq, Eq, Structural)]
pub enum BufferId {
    CameraUniform,
    LightsUniform,
    LightsStorage,
    LightsCount,
    Instances,
    QuadVertices,
    QuadIndices,
}

/// The pipelines a frame plan may bind.
#[derive(Clone, Copy, Debug, PartialEq, Eq, Structural)]
pub enum PipelineId {
    Main,
    DebugLights,
}

/// The binding groups a frame plan may bind.
#[derive(Clone, Copy, Debug, PartialEq, Eq, Structural)]
pub enum BindGroupId {
    Texture,
    Camera,
    Lights,
}

/// The element width of an index stream.
#[derive(Clone, Copy, Debug, PartialEq, Eq, Structural)]
pub enum IndexFormat {
    Uint16,
    Uint32,
}

/// One step of a frame: either a buffer overwrite (issued before the render
/// pass) or a command recorded inside the pass.
#[derive(Clone, Debug)]
pub enum Cmd {
    UploadBuffer { target: BufferId, bytes: Vec<u8> },
    SetPipeline { pipeline: PipelineId },
    SetBindGroup { index: u32, group: BindGroupId },
    SetVertexBuffer { slot: u32, buffer: BufferId, first_byte: usize, byte_len: usize },
    SetIndexBuffer { buffer: BufferId, format: IndexFormat },
    DrawIndexed { index_count: u32, base_vertex: u32, first_instance: u32, instance_count: u32 },
}

/// Whether a command overwrites a buffer.
pub open spec fn is_upload(c: Cmd) -> bool {
    c is UploadBuffer
}

/// Whether a command issues a draw.
pub open spec fn is_draw(c: Cmd) -> bool {
    c is DrawIndexed
}

/// All buffer overwrites stand before every pass command: if a later
/// command is an upload, so is every earlier one. Binding a group does not
/// flush pending writes, so a plan is replayable only in this shape.
pub open spec fn uploads_first(cmds: Seq<Cmd>) -> bool {
    forall|i: int, j: int| 0 <= i < j < cmds.len() && is_upload(#[trigger] cmds[j]) ==> is_upload(
        #[trigger] cmds[i],
    )
}

/// An ordered list of frame commands under construction.
#[derive(Clone, Debug)]
pub struct CommandList {
    pub commands: Vec<Cmd>,
}

impl CommandList {
    pub fn new() -> (c: CommandList)
        ensures
            c.commands@ == Seq::<Cmd>::empty(),
    {
        let c = CommandList { commands: Vec::new() };
        proof {
            assert(c.commands@ =~= Seq::<Cmd>::empty());
        }
        c
    }

    pub fn push(&mut self, cmd: Cmd)
        ensures
            final(self).commands@ == old(self).commands@.push(cmd),
    {
        self.commands.push(cmd);
    }
}

/// A clear color, as four 64-bit float bit patterns.
#[derive(Clone, Copy, Debug, PartialEq, Eq, Structural)]
pub struct ClearColor {
    pub r_bits: u64,
    pub g_bits: u64,
    pub b_bits: u64,
    pub a_bits: u64,
}

/// One frame's worth of GPU work: the commands of its single render pass,
/// the fixed clear values, and the size of the depth attachment the pass
/// renders against.
#[derive(Clone, Debug)]
pub struct FramePlan {
    pub commands: Vec<Cmd>,
    /// Background clear color.
    pub clear_color: ClearColor,
    /// Depth clear value, as a 32-bit float bit pattern (far plane, `1.0`).
    pub depth_clear_bits: u32,
    pub depth_width: u32,
    pub depth_height: u32,
}

} // verus!
