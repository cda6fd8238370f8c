//! The graphics context model and the frame orchestrator.
//!
//! The context owns the presentation surface's current configuration; the
//! device and queue handles it stands for live in the unverified front end,
//! which drives them with the descriptors and frame plans produced here.
//! The renderer owns every GPU resource model, advances camera, light and
//! instance state from input, and records one frame's commands with every
//! buffer overwrite ordered before the render pass that reads it.

use vstd::prelude::*;

use crate::buffers::seq_data_spec;
use crate::buffers::BindGroupLayoutEntry;
use crate::buffers::InstanceBuffer;
use crate::buffers::Storage;
use crate::buffers::ToData;
use crate::buffers::Uniform;
use crate::camera::Camera;
use crate::camera::CameraController;
use crate::camera::CameraMove;
use crate::camera::CameraUniform;
use crate::codec::u32_le;
use crate::codec::Vec3Bits;
use crate::codec::F32_FIFTH_BITS;
use crate::codec::F32_NEG_TENTH_BITS;
use crate::codec::F32_NEG_TWO_BITS;
use crate::codec::F32_ONE_BITS;
use crate::codec::F32_RADIANS_45_DEG_BITS;
use crate::codec::F32_TWO_BITS;
use crate::codec::F32_ZERO_BITS;
use crate::commands::BindGroupId;
use crate::commands::BufferId;
use crate::commands::ClearColor;
use crate::commands::Cmd;
use crate::commands::CommandList;
use crate::commands::FramePlan;
use crate::commands::F64_FIFTH_BITS;
use crate::commands::F64_ONE_BITS;
use crate::commands::F64_TENTH_BITS;
use crate::commands::F64_THREE_TENTHS_BITS;
use crate::commands::PipelineId;
use crate::input::InputHandler;
use crate::input::Key;
use crate::light::Light;
use crate::quad::quad_draw_cmds;
use crate::quad::DrawQuad;
use crate::quad::Instance;
use crate::quad::InstanceRaw;
use crate::quad::Quad;
use crate::vertex::Vertex;
use crate::vertex::VertexBufferLayout;

verus! {

/// Number of instances along one edge of the demo grid.
pub const NUM_INSTANCES_PER_ROW: u32 = 10;

/// A texture format. Only the formats this demo touches are listed; the
/// front end maps any other surface format to `Other` with the backend's
/// numeric identifier.
#[derive(Clone, Copy, Debug, PartialEq, Eq, Structural)]
pub enum TextureFormat {
    Bgra8Unorm,
    Bgra8UnormSrgb,
    Rgba8Unorm,
    Rgba8UnormSrgb,
    Depth32Float,
    Other(u32),
}

/// The presentation mode of the surface.
#[derive(Clone, Copy, Debug, PartialEq, Eq, Structural)]
pub enum PresentMode {
    Fifo,
    Immediate,
    Mailbox,
}

/// The surface's current configuration.
#[derive(Clone, Copy, Debug, PartialEq, Eq, Structural)]
pub struct SurfaceConfig {
    pub width: u32,
    pub height: u32,
    pub format: TextureFormat,
    pub present_mode: PresentMode,
}

/// The state of the graphics context: the surface configuration and the
/// window size it was configured for. The device and queue are owned by the
/// front end and are immutable for the process lifetime; only the
/// configuration changes, and only on resize.
#[derive(Clone, Copy, Debug, PartialEq, Eq, Structural)]
pub struct Context {
    pub config: SurfaceConfig,
    pub size_width: u32,
    pub size_height: u32,
}

/// The shader program a pipeline runs. The program text is an opaque
/// collaborator; each identifier names one program with a `vs_main` vertex
/// entry point and an `fs_main` fragment entry point.
#[derive(Clone, Copy, Debug, PartialEq, Eq, Structural)]
pub enum ShaderId {
    Main,
    Light,
}

/// A binding-group layout a pipeline expects: either the texture
/// collaborator's own layout, or a layout built here from its entries.
#[derive(Clone, Debug)]
pub enum BindGroupLayoutRef {
    Texture,
    Entries(Vec<BindGroupLayoutEntry>),
}

/// The depth-stencil state of a pipeline: depth writes enabled with a
/// less-than comparison against the given format.
#[derive(Clone, Copy, Debug, PartialEq, Eq, Structural)]
pub struct DepthStencilDesc {
    pub format: TextureFormat,
    pub depth_write_enabled: bool,
    pub compare_less: bool,
}

/// An immutable render pipeline: its shader, the ordered binding-group
/// layouts (the list position is the group index bound at draw time), the
/// vertex stream layouts, and the fixed rasterization and blend state.
#[derive(Clone, Debug)]
pub struct PipelineDesc {
    pub shader: ShaderId,
    pub bind_group_layouts: Vec<BindGroupLayoutRef>,
    pub vertex_layouts: Vec<VertexBufferLayout>,
    pub color_format: TextureFormat,
    pub alpha_blend: bool,
    pub front_face_ccw: bool,
    pub cull_back: bool,
    pub polygon_fill: bool,
    pub sample_count: u32,
    pub depth: Option<DepthStencilDesc>,
}

impl Context {
    /// A context configured for a freshly created surface of the given size
    /// and format, presented in first-in-first-out (vsync) order.
    pub fn new(width: u32, height: u32, format: TextureFormat) -> (c: Context)
        ensures
            c.config == (SurfaceConfig {
                width,
                height,
                format,
                present_mode: PresentMode::Fifo,
            }),
            c.size_width == width,
            c.size_height == height,
    {
        Context {
            config: SurfaceConfig { width, height, format, present_mode: PresentMode::Fifo },
            size_width: width,
            size_height: height,
        }
    }

    /// Assembles a pipeline: counter-clockwise front faces, back-face
    /// culling, filled triangles, no multisampling, alpha blending into the
    /// surface's format, and, when a depth format is supplied, depth test
    /// less-than with writes enabled.
    pub fn create_render_pipeline(
        &self,
        shader: ShaderId,
        bind_group_layouts: Vec<BindGroupLayoutRef>,
        vertex_layouts: Vec<VertexBufferLayout>,
        depth_format: Option<TextureFormat>,
    ) -> (p: PipelineDesc)
        ensures
            p.shader == shader,
            p.bind_group_layouts == bind_group_layouts,
            p.vertex_layouts == vertex_layouts,
            p.color_format == self.config.format,
            p.alpha_blend,
            p.front_face_ccw,
            p.cull_back,
            p.polygon_fill,
            p.sample_count == 1,
            p.depth == match depth_format {
                Option::Some(format) => Option::Some(DepthStencilDesc {
                    format,
                    depth_write_enabled: true,
                    compare_less: true,
                }),
                Option::None => Option::None::<DepthStencilDesc>,
            },
    {
        let depth = match depth_format {
            Option::Some(format) => Option::Some(
                DepthStencilDesc { format, depth_write_enabled: true, compare_less: true },
            ),
            Option::None => Option::None,
        };
        PipelineDesc {
            shader,
            bind_group_layouts,
            vertex_layouts,
            color_format: self.config.format,
            alpha_blend: true,
            front_face_ccw: true,
            cull_back: true,
            polygon_fill: true,
            sample_count: 1,
            depth,
        }
    }
}

/// The depth attachment: a depth texture sized to the surface. Its
/// dimensions must always equal the surface's configured dimensions, an
/// invariant re-established by recreating it on every resize.
#[derive(Clone, Copy, Debug, PartialEq, Eq, Structural)]
pub struct DepthTexture {
    pub width: u32,
    pub height: u32,
    pub format: TextureFormat,
}

impl DepthTexture {
    /// A depth texture matching the surface configuration exactly.
    pub fn create_depth_texture(config: &SurfaceConfig) -> (d: DepthTexture)
        ensures
            d.width == config.width,
            d.height == config.height,
            d.format == TextureFormat::Depth32Float,
    {
        DepthTexture {
            width: config.width,
            height: config.height,
            format: TextureFormat::Depth32Float,
        }
    }
}

/// What acquiring the next presentable surface image reported; decoded by
/// the front end from the surface's own error type.
#[derive(Debug)]
pub enum SurfaceStatus {
    Acquired,
    Lost,
    OutOfMemory,
    Other(String),
}

/// A frame's failure, as the frame loop dispatches on it: the surface was
/// lost (recoverable by re-running the resize path), the surface ran out of
/// memory (fatal), or anything else (reported and skipped).
#[derive(Debug, PartialEq)]
pub enum RenderError {
    Lost,
    OutOfMemory,
    Other(String),
}

/// What the frame loop does after a frame.
#[derive(Clone, Copy, Debug, PartialEq, Eq, Structural)]
pub enum LoopAction {
    Continue,
    RecoverWithResize,
    Exit,
}

/// The frame loop's dispatch on a frame's outcome: success and unknown
/// errors continue, a lost surface re-runs the resize path with the current
/// size, and out-of-memory terminates.
pub fn after_render(result: &Result<FramePlan, RenderError>) -> (a: LoopAction)
    ensures
        a == match result {
            Result::Ok(_) => LoopAction::Continue,
            Result::Err(RenderError::Lost) => LoopAction::RecoverWithResize,
            Result::Err(RenderError::OutOfMemory) => LoopAction::Exit,
            Result::Err(RenderError::Other(_)) => LoopAction::Continue,
        },
{
    match result {
        Result::Ok(_) => LoopAction::Continue,
        Result::Err(RenderError::Lost) => LoopAction::RecoverWithResize,
        Result::Err(RenderError::OutOfMemory) => LoopAction::Exit,
        Result::Err(RenderError::Other(_)) => LoopAction::Continue,
    }
}

/// The orchestrator's lifecycle states.
#[derive(Clone, Copy, Debug, PartialEq, Eq, Structural)]
pub enum RenderState {
    Initializing,
    Ready,
    Resizing,
    SurfaceLost,
}

/// The events that move the orchestrator between states.
#[derive(Clone, Copy, Debug, PartialEq, Eq, Structural)]
pub enum RenderEvent {
    ContextBuilt,
    ResizeRequested { width: u32, height: u32 },
    AttachmentsRebuilt,
    AcquireFailedLost,
    Recovered,
    AcquireFailedOutOfMemory,
}

/// The lifecycle transition relation: construction completes into `Ready`;
/// a non-zero resize passes through `Resizing` and back; a zero-size resize
/// is ignored; a lost surface passes through `SurfaceLost` and recovers by
/// the resize path; out-of-memory is fatal (`None`); any other pairing
/// leaves the state unchanged.
pub open spec fn spec_step(state: RenderState, event: RenderEvent) -> Option<RenderState> {
    match event {
        RenderEvent::AcquireFailedOutOfMemory => Option::None,
        RenderEvent::ContextBuilt => if state is Initializing {
            Option::Some(RenderState::Ready)
        } else {
            Option::Some(state)
        },
        RenderEvent::ResizeRequested { width, height } => if state is Ready && width > 0 && height
            > 0 {
            Option::Some(RenderState::Resizing)
        } else {
            Option::Some(state)
        },
        RenderEvent::AttachmentsRebuilt => if state is Resizing {
            Option::Some(RenderState::Ready)
        } else {
            Option::Some(state)
        },
        RenderEvent::AcquireFailedLost => if state is Ready {
            Option::Some(RenderState::SurfaceLost)
        } else {
            Option::Some(state)
        },
        RenderEvent::Recovered => if state is SurfaceLost {
            Option::Some(RenderState::Ready)
        } else {
            Option::Some(state)
        },
    }
}

/// One step of the lifecycle machine; `None` means the process cannot
/// proceed.
pub fn step_state(state: RenderState, event: RenderEvent) -> (next: Option<RenderState>)
    ensures
        next == spec_step(state, event),
{
    match event {
        RenderEvent::AcquireFailedOutOfMemory => Option::None,
        RenderEvent::ContextBuilt => match state {
            RenderState::Initializing => Option::Some(RenderState::Ready),
            _ => Option::Some(state),
        },
        RenderEvent::ResizeRequested { width, height } => match state {
            RenderState::Ready => if width > 0 && height > 0 {
                Option::Some(RenderState::Resizing)
            } else {
                Option::Some(state)
            },
            _ => Option::Some(state),
        },
        RenderEvent::AttachmentsRebuilt => match state {
            RenderState::Resizing => Option::Some(RenderState::Ready),
            _ => Option::Some(state),
        },
        RenderEvent::AcquireFailedLost => match state {
            RenderState::Ready => Option::Some(RenderState::SurfaceLost),
            _ => Option::Some(state),
        },
        RenderEvent::Recovered => match state {
            RenderState::SurfaceLost => Option::Some(RenderState::Ready),
            _ => Option::Some(state),
        },
    }
}

/// Relies on rand::random: draws one value of `T` from the thread-local
/// generator's standard distribution. Nothing is promised of the result;
/// every caller must hold for every outcome.
pub assume_specification<T>[ rand::random::<T> ]() -> (r: T)
    where
        rand::distributions::Standard: rand::distributions::Distribution<T>,
;

/// The bit pattern of the 32-bit float `i - 4.5`, the world offset of grid
/// row or column `i`: the grid is centred on the origin.
pub open spec fn spec_grid_offset_bits(i: u32) -> u32 {
    if i == 0 {
        0xC090_0000
    } else if i == 1 {
        0xC060_0000
    } else if i == 2 {
        0xC020_0000
    } else if i == 3 {
        0xBFC0_0000
    } else if i == 4 {
        0xBF00_0000
    } else if i == 5 {
        0x3F00_0000
    } else if i == 6 {
        0x3FC0_0000
    } else if i == 7 {
        0x4020_0000
    } else if i == 8 {
        0x4060_0000
    } else {
        0x4090_0000
    }
}

fn grid_offset_bits(i: u32) -> (r: u32)
    requires
        i < NUM_INSTANCES_PER_ROW,
    ensures
        r == spec_grid_offset_bits(i),
{
    if i == 0 {
        0xC090_0000
    } else if i == 1 {
        0xC060_0000
    } else if i == 2 {
        0xC020_0000
    } else if i == 3 {
        0xBFC0_0000
    } else if i == 4 {
        0xBF00_0000
    } else if i == 5 {
        0x3F00_0000
    } else if i == 6 {
        0x3FC0_0000
    } else if i == 7 {
        0x4020_0000
    } else if i == 8 {
        0x4060_0000
    } else {
        0x4090_0000
    }
}

/// The instance standing at flat grid position `k`: column `k mod 10`, row
/// `k div 10`, in the plane of the grid.
pub open spec fn grid_instance_at(k: int) -> Instance {
    Instance {
        position: Vec3Bits {
            x: spec_grid_offset_bits((k % 10) as u32),
            y: spec_grid_offset_bits((k / 10) as u32),
            z: F32_ZERO_BITS,
        },
    }
}

/// The full 10-by-10 instance grid, row by row.
fn make_grid() -> (v: Vec<Instance>)
    ensures
        v@.len() == 100,
        forall|k: int| 0 <= k < 100 ==> v@[k] == grid_instance_at(k),
{
    let mut v: Vec<Instance> = Vec::new();
    let mut k: u32 = 0;
    while k < 100
        invariant
            k <= 100,
            v@.len() == k,
            forall|j: int| 0 <= j < k ==> v@[j] == grid_instance_at(j),
        decreases 100 - k,
    {
        let x = k % 10;
        let y = k / 10;
        v.push(
            Instance {
                position: Vec3Bits {
                    x: grid_offset_bits(x),
                    y: grid_offset_bits(y),
                    z: F32_ZERO_BITS,
                },
            },
        );
        k = k + 1;
    }
    v
}

/// The instances kept by a sequence of coin flips, in original order: the
/// shape of every possible outcome of regenerating the grid.
pub open spec fn filter_by(items: Seq<Instance>, keep: Seq<bool>) -> Seq<Instance>
    decreases items.len(),
{
    if items.len() == 0 || keep.len() == 0 {
        Seq::empty()
    } else {
        let rest = filter_by(items.drop_last(), keep.drop_last());
        if keep.last() {
            rest.push(items.last())
        } else {
            rest
        }
    }
}

/// Keeping a subset never yields more instances than there were.
pub proof fn lemma_filter_by_len(items: Seq<Instance>, keep: Seq<bool>)
    ensures
        filter_by(items, keep).len() <= items.len(),
    decreases items.len(),
{
    if items.len() == 0 || keep.len() == 0 {
    } else {
        lemma_filter_by_len(items.drop_last(), keep.drop_last());
    }
}

/// The visible-instance count after this frame's clicks: an increment is
/// clamped to the instance count, then a decrement saturates at zero.
pub open spec fn spec_counter_after(n: int, len: int, up: bool, down: bool) -> int {
    let n1 = if up {
        if n + 1 <= len {
            n + 1
        } else {
            len
        }
    } else {
        n
    };
    if down {
        if n1 > 0 {
            n1 - 1
        } else {
            0
        }
    } else {
        n1
    }
}

/// The expected command stream of one frame built from renderer state `r`:
/// five buffer overwrites, then the render pass's commands — the main draw
/// over the visible instance prefix with its three binding groups, then the
/// debug light markers with the camera and lights groups.
pub open spec fn frame_plan_matches(r: Renderer, cmds: Seq<Cmd>) -> bool {
    &&& cmds.len() == 19
    &&& (cmds[0] matches Cmd::UploadBuffer { target: BufferId::Instances, bytes } && bytes@
        == seq_data_spec(r.instances@.take(r.instances_to_draw as int)))
    &&& (cmds[1] matches Cmd::UploadBuffer { target: BufferId::CameraUniform, bytes } && bytes@
        == r.camera_matrix.data_spec())
    &&& (cmds[2] matches Cmd::UploadBuffer { target: BufferId::LightsStorage, bytes } && bytes@
        == seq_data_spec(r.lights@))
    &&& (cmds[3] matches Cmd::UploadBuffer { target: BufferId::LightsCount, bytes } && bytes@
        == u32_le(r.lights@.len() as u32))
    &&& (cmds[4] matches Cmd::UploadBuffer { target: BufferId::LightsUniform, bytes } && bytes@
        == r.lights@[1].data_spec())
    &&& cmds[5] == (Cmd::SetPipeline { pipeline: PipelineId::Main })
    &&& cmds[6] == (Cmd::SetBindGroup { index: 0, group: BindGroupId::Texture })
    &&& cmds[7] == (Cmd::SetBindGroup { index: 1, group: BindGroupId::Camera })
    &&& cmds[8] == (Cmd::SetBindGroup { index: 2, group: BindGroupId::Lights })
    &&& cmds[9] == (Cmd::SetVertexBuffer {
        slot: 1,
        buffer: BufferId::Instances,
        first_byte: 0,
        byte_len: (64 * r.instances_to_draw) as usize,
    })
    &&& cmds.subrange(10, 13) == quad_draw_cmds(r.quad, 0, r.instances_to_draw as u32)
    &&& cmds[13] == (Cmd::SetPipeline { pipeline: PipelineId::DebugLights })
    &&& cmds[14] == (Cmd::SetBindGroup { index: 0, group: BindGroupId::Camera })
    &&& cmds[15] == (Cmd::SetBindGroup { index: 1, group: BindGroupId::Lights })
    &&& cmds.subrange(16, 19) == quad_draw_cmds(r.quad, 0, r.lights@.len() as u32)
}

/// The demo's two initial lights: both white, one above-right and one
/// below-left of the grid, slightly in front of it.
pub open spec fn initial_lights_spec() -> Seq<Light> {
    seq![
        Light {
            position: Vec3Bits { x: F32_TWO_BITS, y: F32_TWO_BITS, z: F32_NEG_TENTH_BITS },
            color: Vec3Bits { x: F32_ONE_BITS, y: F32_ONE_BITS, z: F32_ONE_BITS },
        },
        Light {
            position: Vec3Bits {
                x: F32_NEG_TWO_BITS,
                y: F32_NEG_TWO_BITS,
                z: F32_NEG_TENTH_BITS,
            },
            color: Vec3Bits { x: F32_ONE_BITS, y: F32_ONE_BITS, z: F32_ONE_BITS },
        },
    ]
}

/// The shape of the main pipeline: the main shader; the texture, camera and
/// lights layouts at group indices 0, 1 and 2; the vertex and instance
/// streams; depth against the standard format; drawing into `format`.
pub open spec fn is_main_pipeline(p: PipelineDesc, format: TextureFormat) -> bool {
    &&& p.shader == ShaderId::Main
    &&& p.bind_group_layouts@.len() == 3
    &&& p.bind_group_layouts@[0] is Texture
    &&& p.bind_group_layouts@[1] is Entries
    &&& p.bind_group_layouts@[1]->0@ == seq![crate::buffers::uniform_layout_entry(0)]
    &&& p.bind_group_layouts@[2] is Entries
    &&& p.bind_group_layouts@[2]->0@ == seq![
        crate::buffers::storage_layout_entry(0),
        crate::buffers::uniform_layout_entry(1),
    ]
    &&& p.vertex_layouts@.len() == 2
    &&& p.vertex_layouts@[0].wf()
    &&& p.vertex_layouts@[0].step_mode == crate::vertex::VertexStepMode::Vertex
    &&& p.vertex_layouts@[1].wf()
    &&& p.vertex_layouts@[1].step_mode == crate::vertex::VertexStepMode::Instance
    &&& p.depth == Option::Some(DepthStencilDesc {
        format: TextureFormat::Depth32Float,
        depth_write_enabled: true,
        compare_less: true,
    })
    &&& p.color_format == format
    &&& p.alpha_blend
    &&& p.front_face_ccw
    &&& p.cull_back
    &&& p.polygon_fill
    &&& p.sample_count == 1
}

/// The shape of the debug-light pipeline: the light shader; the camera and
/// lights layouts at group indices 0 and 1; the vertex stream only.
pub open spec fn is_light_pipeline(p: PipelineDesc, format: TextureFormat) -> bool {
    &&& p.shader == ShaderId::Light
    &&& p.bind_group_layouts@.len() == 2
    &&& p.bind_group_layouts@[0] is Entries
    &&& p.bind_group_layouts@[0]->0@ == seq![crate::buffers::uniform_layout_entry(0)]
    &&& p.bind_group_layouts@[1] is Entries
    &&& p.bind_group_layouts@[1]->0@ == seq![
        crate::buffers::storage_layout_entry(0),
        crate::buffers::uniform_layout_entry(1),
    ]
    &&& p.vertex_layouts@.len() == 1
    &&& p.vertex_layouts@[0].wf()
    &&& p.vertex_layouts@[0].step_mode == crate::vertex::VertexStepMode::Vertex
    &&& p.depth == Option::Some(DepthStencilDesc {
        format: TextureFormat::Depth32Float,
        depth_write_enabled: true,
        compare_less: true,
    })
    &&& p.color_format == format
    &&& p.alpha_blend
    &&& p.front_face_ccw
    &&& p.cull_back
    &&& p.polygon_fill
    &&& p.sample_count == 1
}

/// Builds the main pipeline from the context's surface format.
fn build_main_pipeline(context: &Context) -> (p: PipelineDesc)
    ensures
        is_main_pipeline(p, context.config.format),
{
    let mut layouts: Vec<BindGroupLayoutRef> = Vec::new();
    layouts.push(BindGroupLayoutRef::Texture);
    layouts.push(BindGroupLayoutRef::Entries(crate::buffers::create_uniform_bind_group(0).layout));
    layouts.push(BindGroupLayoutRef::Entries(crate::buffers::create_storage_bind_group().layout));
    let mut vertex_layouts: Vec<VertexBufferLayout> = Vec::new();
    vertex_layouts.push(Vertex::desc());
    vertex_layouts.push(InstanceRaw::desc());
    context.create_render_pipeline(
        ShaderId::Main,
        layouts,
        vertex_layouts,
        Option::Some(TextureFormat::Depth32Float),
    )
}

/// Builds the debug-light pipeline from the context's surface format.
fn build_light_pipeline(context: &Context) -> (p: PipelineDesc)
    ensures
        is_light_pipeline(p, context.config.format),
{
    let mut layouts: Vec<BindGroupLayoutRef> = Vec::new();
    layouts.push(BindGroupLayoutRef::Entries(crate::buffers::create_uniform_bind_group(0).layout));
    layouts.push(BindGroupLayoutRef::Entries(crate::buffers::create_storage_bind_group().layout));
    let mut vertex_layouts: Vec<VertexBufferLayout> = Vec::new();
    vertex_layouts.push(Vertex::desc());
    context.create_render_pipeline(
        ShaderId::Light,
        layouts,
        vertex_layouts,
        Option::Some(TextureFormat::Depth32Float),
    )
}

/// The frame orchestrator: owns every GPU resource model, advances state
/// once per frame, and records each frame's commands.
pub struct Renderer {
    pub context: Context,
    pub input_handler: InputHandler,
    pub render_pipeline: PipelineDesc,
    pub light_render_pipeline: PipelineDesc,
    pub depth_texture: DepthTexture,
    pub quad: Quad,
    pub camera: Camera,
    pub camera_controller: CameraController,
    /// The finished view-projection matrix the front end handed back last;
    /// uploaded to the camera uniform each frame.
    pub camera_matrix: CameraUniform,
    pub camera_uniform: Uniform<CameraUniform>,
    pub instances: Vec<Instance>,
    /// The full grid the instance buffer was sized for; regeneration draws
    /// a random subset of it.
    pub instance_templates: Vec<Instance>,
    pub instance_buffer: InstanceBuffer<Instance>,
    pub instances_to_draw: usize,
    pub lights_uniform: Uniform<Light>,
    pub lights_storage: Storage<Light>,
    pub lights: Vec<Light>,
    /// Update-before-draw protocol flag: `update` must run exactly once
    /// before each `render`.
    pub needs_update: bool,
}

impl Renderer {
    /// The renderer's invariant: the visible count stays within the live
    /// instances, the live instances fit the buffer sized for the full
    /// grid, every slot keeps its construction shape, there are exactly two
    /// lights, and the depth attachment matches the surface configuration.
    pub open spec fn wf(&self) -> bool {
        &&& self.instances_to_draw <= self.instances@.len()
        &&& self.instances@.len() <= self.instance_templates@.len()
        &&& self.instance_templates@.len() == 100
        &&& self.instance_buffer.wf()
        &&& self.instance_buffer.raw.size_spec() == 6400
        &&& self.camera_uniform.wf()
        &&& self.lights_uniform.wf()
        &&& self.lights_storage.wf()
        &&& self.lights_storage.storage.raw.size_spec() == 64
        &&& self.lights@.len() == 2
        &&& self.quad.wf()
        &&& self.depth_texture.width == self.context.config.width
        &&& self.depth_texture.height == self.context.config.height
        &&& self.depth_texture.format == TextureFormat::Depth32Float
    }

    /// Builds every resource model for a surface of the given size and
    /// format: the camera and its uniform, two white lights with their
    /// uniform and storage slots, both pipelines, the depth attachment, the
    /// quad, and the full instance grid, all of it visible. The front end
    /// performs the device, surface and texture work this stands beside.
    pub fn new(width: u32, height: u32, format: TextureFormat) -> (r: Renderer)
        ensures
            r.wf(),
            r.needs_update,
            r.context == (Context {
                config: SurfaceConfig {
                    width,
                    height,
                    format,
                    present_mode: PresentMode::Fifo,
                },
                size_width: width,
                size_height: height,
            }),
            r.camera == Camera::new_spec(
                width,
                height,
                F32_RADIANS_45_DEG_BITS,
                crate::codec::F32_TENTH_BITS,
                crate::codec::F32_HUNDRED_BITS,
            ),
            r.camera_controller == (CameraController { speed_bits: F32_FIFTH_BITS }),
            r.instances@.len() == 100,
            forall|k: int| 0 <= k < 100 ==> r.instances@[k] == grid_instance_at(k),
            r.instance_templates@ == r.instances@,
            r.instances_to_draw == 100,
            r.lights@ == initial_lights_spec(),
            is_main_pipeline(r.render_pipeline, format),
            is_light_pipeline(r.light_render_pipeline, format),
            r.instance_buffer.contents_spec() == seq_data_spec(r.instances@),
            r.camera_uniform.contents_spec() == r.camera_matrix.data_spec(),
            r.camera_matrix.view_proj@ == crate::quad::identity_matrix_bits(),
            r.lights_storage.contents_spec() == seq_data_spec(initial_lights_spec()),
            r.lights_storage.count_spec() == u32_le(2),
            r.lights_uniform.contents_spec() == initial_lights_spec()[0].data_spec(),
            r.input_handler@.keys_held == Set::<Key>::empty(),
            r.input_handler@.keys_clicked == Set::<Key>::empty(),
    {
        let context = Context::new(width, height, format);

        let camera = Camera::basic(width, height, F32_RADIANS_45_DEG_BITS);
        let camera_matrix = CameraUniform::identity();
        let camera_uniform = Uniform::new(&context, &camera_matrix);

        let light1 = Light::new(
            Vec3Bits { x: F32_TWO_BITS, y: F32_TWO_BITS, z: F32_NEG_TENTH_BITS },
            Vec3Bits { x: F32_ONE_BITS, y: F32_ONE_BITS, z: F32_ONE_BITS },
        );
        let light2 = Light::new(
            Vec3Bits { x: F32_NEG_TWO_BITS, y: F32_NEG_TWO_BITS, z: F32_NEG_TENTH_BITS },
            Vec3Bits { x: F32_ONE_BITS, y: F32_ONE_BITS, z: F32_ONE_BITS },
        );
        let lights_uniform = Uniform::new(&context, &light1);
        let mut lights: Vec<Light> = Vec::new();
        lights.push(light1);
        lights.push(light2);

        let lights_storage = Storage::new(&context, &lights);
        proof {
            crate::buffers::lemma_seq_data_len::<Light>(lights@);
            assert(lights@ =~= initial_lights_spec());
            assert(light1 == initial_lights_spec()[0]);
        }

        let render_pipeline = build_main_pipeline(&context);
        let light_render_pipeline = build_light_pipeline(&context);

        let depth_texture = DepthTexture::create_depth_texture(&context.config);

        let quad = Quad::new(&context);

        let camera_controller = CameraController::new(F32_FIFTH_BITS);

        let instances = make_grid();
        let instance_templates = make_grid();
        proof {
            assert forall|k: int| 0 <= k < 100 implies instance_templates@[k] == instances@[k] by {
                assert(instance_templates@[k] == grid_instance_at(k));
                assert(instances@[k] == grid_instance_at(k));
            }
            assert(instance_templates@ =~= instances@);
            crate::buffers::lemma_seq_data_len::<Instance>(instances@);
        }
        let instance_buffer = InstanceBuffer::new(&context, &instances);

        let input_handler = InputHandler::new();

        let instances_to_draw = instances.len();
        Renderer {
            context,
            input_handler,
            render_pipeline,
            light_render_pipeline,
            depth_texture,
            quad,
            camera,
            camera_controller,
            camera_matrix,
            camera_uniform,
            instances,
            instance_templates,
            instance_buffer,
            instances_to_draw,
            lights_uniform,
            lights_storage,
            lights,
            needs_update: true,
        }
    }

    /// Reconfigures the surface and recreates the depth attachment as one
    /// step, so their sizes can never diverge. A resize to a zero width or
    /// height is ignored: no valid surface configuration exists for it.
    pub fn resize(&mut self, width: u32, height: u32)
        requires
            old(self).wf(),
        ensures
            final(self).wf(),
            width > 0 && height > 0 ==> *final(self) == (Renderer {
                context: Context {
                    config: SurfaceConfig { width, height, ..old(self).context.config },
                    size_width: width,
                    size_height: height,
                },
                camera: Camera { width, height, ..old(self).camera },
                depth_texture: DepthTexture {
                    width,
                    height,
                    format: TextureFormat::Depth32Float,
                },
                ..*old(self)
            }),
            !(width > 0 && height > 0) ==> *final(self) == *old(self),
    {
        if width > 0 && height > 0 {
            self.context.size_width = width;
            self.context.size_height = height;
            self.context.config.width = width;
            self.context.config.height = height;
            self.camera.resize(width, height);
            self.depth_texture = DepthTexture::create_depth_texture(&self.context.config);
        }
    }

    /// Advances state from input, exactly once per frame, strictly before
    /// `render`: the visible-instance count reacts to Up and Down clicks,
    /// clamped to the live instance range; a Space click regenerates the
    /// instances as a random subset of the grid; and the returned movement
    /// decision is what the held keys ask of the camera, for the front end
    /// to scale and apply. Light rotation is likewise the front end's
    /// floating-point work, applied through `set_light_position`.
    pub fn update(&mut self) -> (mv: CameraMove)
        requires
            old(self).wf(),
            old(self).needs_update,
        ensures
            final(self).wf(),
            !final(self).needs_update,
            mv.dx == crate::camera::spec_move_x(old(self).input_handler@),
            mv.dy == crate::camera::spec_move_y(old(self).input_handler@),
            final(self).input_handler == old(self).input_handler,
            final(self).context == old(self).context,
            final(self).camera == old(self).camera,
            final(self).camera_matrix == old(self).camera_matrix,
            final(self).lights == old(self).lights,
            final(self).instance_templates == old(self).instance_templates,
            final(self).instances_to_draw <= final(self).instances@.len(),
            ({
                let up = old(self).input_handler@.keys_clicked.contains(Key::Up);
                let down = old(self).input_handler@.keys_clicked.contains(Key::Down);
                let space = old(self).input_handler@.keys_clicked.contains(Key::Space);
                let clicked_count = spec_counter_after(
                    old(self).instances_to_draw as int,
                    old(self).instances@.len() as int,
                    up,
                    down,
                );
                let new_instances = final(self).instances@;
                let new_count = final(self).instances_to_draw as int;
                &&& !space ==> new_instances == old(self).instances@ && new_count == clicked_count
                &&& space ==> (exists|keep: Seq<bool>|
                    keep.len() == 100 && new_instances == filter_by(
                        old(self).instance_templates@,
                        keep,
                    )) && new_count == (if clicked_count <= new_instances.len() as int {
                    clicked_count
                } else {
                    new_instances.len() as int
                })
            }),
    {
        let up_clicked = self.input_handler.clicked(Key::Up);
        let down_clicked = self.input_handler.clicked(Key::Down);
        let space_clicked = self.input_handler.clicked(Key::Space);

        if up_clicked {
            if self.instances_to_draw < self.instances.len() {
                self.instances_to_draw = self.instances_to_draw + 1;
            }
        }
        if down_clicked {
            if self.instances_to_draw > 0 {
                self.instances_to_draw = self.instances_to_draw - 1;
            }
        }
        if space_clicked {
            let mut kept: Vec<Instance> = Vec::new();
            let ghost mut keep: Seq<bool> = Seq::empty();
            let mut i: usize = 0;
            while i < self.instance_templates.len()
                invariant
                    i <= self.instance_templates@.len(),
                    keep.len() == i,
                    kept@ == filter_by(self.instance_templates@.take(i as int), keep),
                decreases self.instance_templates@.len() - i,
            {
                let flip: bool = rand::random();
                let ghost keep_before = keep;
                proof {
                    keep = keep_before.push(flip);
                }
                if flip {
                    kept.push(self.instance_templates[i]);
                }
                proof {
                    assert(keep.drop_last() =~= keep_before);
                    assert(keep.last() == flip);
                    assert(self.instance_templates@.take(i + 1).drop_last()
                        =~= self.instance_templates@.take(i as int));
                    assert(self.instance_templates@.take(i + 1).last()
                        == self.instance_templates@[i as int]);
                }
                i = i + 1;
            }
            proof {
                assert(self.instance_templates@.take(self.instance_templates@.len() as int)
                    =~= self.instance_templates@);
                lemma_filter_by_len(self.instance_templates@, keep);
            }
            self.instances = kept;
            if self.instances_to_draw > self.instances.len() {
                self.instances_to_draw = self.instances.len();
            }
        }

        self.needs_update = false;
        self.camera_controller.update(&self.input_handler)
    }

    /// Moves the camera to the displaced eye and target the front end
    /// computed from this frame's movement decision.
    pub fn set_camera(&mut self, eye: Vec3Bits, target: Vec3Bits)
        requires
            old(self).wf(),
        ensures
            final(self).wf(),
            *final(self) == (Renderer {
                camera: Camera { eye, target, ..old(self).camera },
                ..*old(self)
            }),
    {
        self.camera.translate(eye, target);
    }

    /// Stores the finished view-projection matrix for this frame's camera
    /// upload.
    pub fn set_camera_matrix(&mut self, matrix: CameraUniform)
        requires
            old(self).wf(),
        ensures
            final(self).wf(),
            *final(self) == (Renderer { camera_matrix: matrix, ..*old(self) }),
    {
        self.camera_matrix = matrix;
    }

    /// Moves one light to the rotated position the front end computed; the
    /// light keeps its color.
    pub fn set_light_position(&mut self, idx: usize, position: Vec3Bits)
        requires
            old(self).wf(),
            idx < old(self).lights@.len(),
        ensures
            final(self).wf(),
            final(self).lights@ == old(self).lights@.update(
                idx as int,
                Light { position, color: old(self).lights@[idx as int].color },
            ),
            *final(self) == (Renderer { lights: final(self).lights, ..*old(self) }),
    {
        let color = self.lights[idx].color;
        self.lights.set(idx, Light { position, color });
    }

    /// Records one frame. On a successfully acquired surface image, every
    /// changed buffer is re-uploaded strictly before any pass command, the
    /// single pass clears color to the fixed background and depth to the
    /// far plane, and the plan's depth attachment is exactly the surface's
    /// configured size. Acquisition failures become the tagged error the
    /// frame loop dispatches on.
    pub fn render(&mut self, status: SurfaceStatus) -> (r: Result<FramePlan, RenderError>)
        requires
            old(self).wf(),
            !old(self).needs_update,
        ensures
            final(self).wf(),
            final(self).needs_update,
            final(self).context == old(self).context,
            final(self).instances@ == old(self).instances@,
            final(self).instances_to_draw == old(self).instances_to_draw,
            final(self).lights@ == old(self).lights@,
            final(self).depth_texture == old(self).depth_texture,
            final(self).camera == old(self).camera,
            final(self).camera_matrix == old(self).camera_matrix,
            status is Acquired ==> (r matches Result::Ok(plan) && {
                &&& frame_plan_matches(*old(self), plan.commands@)
                &&& crate::commands::uploads_first(plan.commands@)
                &&& plan.depth_width == old(self).context.config.width
                &&& plan.depth_height == old(self).context.config.height
                &&& plan.clear_color == (ClearColor {
                    r_bits: F64_TENTH_BITS,
                    g_bits: F64_FIFTH_BITS,
                    b_bits: F64_THREE_TENTHS_BITS,
                    a_bits: F64_ONE_BITS,
                })
                &&& plan.depth_clear_bits == F32_ONE_BITS
            }),
            status is Acquired ==> {
                &&& final(self).camera_uniform.contents_spec() == old(
                    self,
                ).camera_matrix.data_spec()
                &&& final(self).lights_storage.contents_spec() == seq_data_spec(old(self).lights@)
                &&& final(self).lights_storage.count_spec() == u32_le(old(self).lights@.len() as u32)
                &&& final(self).lights_uniform.contents_spec() == old(self).lights@[1].data_spec()
                &&& final(self).instance_buffer.contents_spec() == seq_data_spec(
                    old(self).instances@.take(old(self).instances_to_draw as int),
                ) + old(self).instance_buffer.contents_spec().skip(
                    seq_data_spec(
                        old(self).instances@.take(old(self).instances_to_draw as int),
                    ).len() as int,
                )
            },
            status is Lost ==> r matches Result::Err(RenderError::Lost),
            status is OutOfMemory ==> r matches Result::Err(RenderError::OutOfMemory),
            (status matches SurfaceStatus::Other(msg) ==> (r matches Result::Err(
                RenderError::Other(m),
            ) && m == msg)),
            !(status is Acquired) ==> *final(self) == (Renderer {
                needs_update: true,
                ..*old(self)
            }),
    {
        self.needs_update = true;
        match status {
            SurfaceStatus::Lost => {
                return Result::Err(RenderError::Lost);
            },
            SurfaceStatus::OutOfMemory => {
                return Result::Err(RenderError::OutOfMemory);
            },
            SurfaceStatus::Other(msg) => {
                return Result::Err(RenderError::Other(msg));
            },
            SurfaceStatus::Acquired => {},
        }

        // Re-upload everything that changed this frame, before any pass
        // command: the visible instance prefix, the camera matrix, the
        // light array with its count, and the debug light uniform.
        let n = self.instances_to_draw;
        let mut visible: Vec<Instance> = Vec::new();
        let mut i: usize = 0;
        while i < n
            invariant
                i <= n,
                n <= self.instances@.len(),
                visible@ == self.instances@.take(i as int),
            decreases n - i,
        {
            visible.push(self.instances[i]);
            proof {
                assert(self.instances@.take(i + 1) =~= self.instances@.take(i as int).push(
                    self.instances@[i as int],
                ));
            }
            i = i + 1;
        }
        proof {
            crate::buffers::lemma_seq_data_len::<Instance>(visible@);
            assert(visible@.len() * 64 <= 6400) by (nonlinear_arith)
                requires
                    visible@.len() <= 100,
            ;
        }
        let instance_bytes = crate::buffers::encode_slice(&visible);
        self.instance_buffer.update(&self.context, &visible);

        let camera_bytes = self.camera_matrix.to_data();
        let camera_matrix = self.camera_matrix;
        self.camera_uniform.update(&self.context, &camera_matrix);

        let lights_bytes = crate::buffers::encode_slice(&self.lights);
        proof {
            crate::buffers::lemma_seq_data_len::<Light>(self.lights@);
        }
        let lights_vec_copy = clone_lights(&self.lights);
        self.lights_storage.update(&self.context, &lights_vec_copy);
        proof {
            assert(self.lights_storage.contents_spec() =~= seq_data_spec(self.lights@));
        }
        let mut count_bytes: Vec<u8> = Vec::new();
        crate::codec::push_u32_le(&mut count_bytes, self.lights.len() as u32);

        let debug_light = self.lights[1];
        let debug_light_bytes = debug_light.to_data();
        self.lights_uniform.update(&self.context, &debug_light);

        let mut list = CommandList::new();
        list.push(Cmd::UploadBuffer { target: BufferId::Instances, bytes: instance_bytes });
        list.push(Cmd::UploadBuffer { target: BufferId::CameraUniform, bytes: camera_bytes });
        list.push(Cmd::UploadBuffer { target: BufferId::LightsStorage, bytes: lights_bytes });
        list.push(Cmd::UploadBuffer { target: BufferId::LightsCount, bytes: count_bytes });
        list.push(Cmd::UploadBuffer { target: BufferId::LightsUniform, bytes: debug_light_bytes });

        // The render pass: draw the visible instances with the main
        // pipeline and its three groups, then the light markers.
        list.push(Cmd::SetPipeline { pipeline: PipelineId::Main });
        list.push(Cmd::SetBindGroup { index: 0, group: BindGroupId::Texture });
        list.push(Cmd::SetBindGroup { index: 1, group: BindGroupId::Camera });
        list.push(Cmd::SetBindGroup { index: 2, group: BindGroupId::Lights });
        list.push(
            Cmd::SetVertexBuffer {
                slot: 1,
                buffer: BufferId::Instances,
                first_byte: 0,
                byte_len: 64 * n,
            },
        );
        list.draw_quad_indexed(&self.quad, 0, n as u32);

        list.push(Cmd::SetPipeline { pipeline: PipelineId::DebugLights });
        list.push(Cmd::SetBindGroup { index: 0, group: BindGroupId::Camera });
        list.push(Cmd::SetBindGroup { index: 1, group: BindGroupId::Lights });
        list.draw_quad_indexed(&self.quad, 0, self.lights.len() as u32);

        let plan = FramePlan {
            commands: list.commands,
            clear_color: ClearColor {
                r_bits: F64_TENTH_BITS,
                g_bits: F64_FIFTH_BITS,
                b_bits: F64_THREE_TENTHS_BITS,
                a_bits: F64_ONE_BITS,
            },
            depth_clear_bits: F32_ONE_BITS,
            depth_width: self.context.config.width,
            depth_height: self.context.config.height,
        };
        proof {
            let cmds = plan.commands@;
            assert(cmds.subrange(10, 13) =~= quad_draw_cmds(
                old(self).quad,
                0,
                old(self).instances_to_draw as u32,
            ));
            assert(cmds.subrange(16, 19) =~= quad_draw_cmds(
                old(self).quad,
                0,
                old(self).lights@.len() as u32,
            ));
            assert(frame_plan_matches(*old(self), cmds));
            assert forall|a: int, b: int|
                0 <= a < b < cmds.len() && crate::commands::is_upload(#[trigger] cmds[b])
                    implies crate::commands::is_upload(#[trigger] cmds[a]) by {
                assert(b < 5);
            }
        }
        Result::Ok(plan)
    }

    /// The window size the context was last configured for.
    pub fn get_size(&self) -> (r: (u32, u32))
        ensures
            r.0 == self.context.size_width,
            r.1 == self.context.size_height,
    {
        (self.context.size_width, self.context.size_height)
    }

    /// The input handler, for event recording and queries.
    pub fn input(&mut self) -> (r: &mut InputHandler)
        ensures
            *r == old(self).input_handler,
            *final(self) == (Renderer { input_handler: *final(r), ..*old(self) }),
    {
        &mut self.input_handler
    }
}

/// An element-wise copy of the lights list.
fn clone_lights(lights: &Vec<Light>) -> (r: Vec<Light>)
    ensures
        r@ == lights@,
{
    let mut out: Vec<Light> = Vec::new();
    let mut i: usize = 0;
    while i < lights.len()
        invariant
            i <= lights@.len(),
            out@ == lights@.take(i as int),
        decreases lights@.len() - i,
    {
        out.push(lights[i]);
        proof {
            assert(lights@.take(i + 1) =~= lights@.take(i as int).push(lights@[i as int]));
        }
        i = i + 1;
    }
    proof {
        assert(lights@.take(lights@.len() as int) =~= lights@);
    }
    out
}

/// The depth attachment a well-formed renderer renders against always has
/// exactly the surface's configured dimensions — the invariant resize
/// re-establishes and render relies on.
pub proof fn lemma_depth_matches_surface(r: Renderer)
    requires
        r.wf(),
    ensures
        r.depth_texture.width == r.context.config.width,
        r.depth_texture.height == r.context.config.height,
{
}

/// For every valid non-zero size, a resize followed by a render produces a
/// depth attachment whose dimensions equal the surface's configured
/// dimensions: `resized` is the state `resize` leaves behind and `plan` is
/// what a successful `render` from it reports, so the plan's attachment is
/// exactly the requested size, and exactly the recreated attachment's.
pub proof fn lemma_resize_then_render_depth(
    before: Renderer,
    resized: Renderer,
    plan: FramePlan,
    width: u32,
    height: u32,
)
    requires
        before.wf(),
        width > 0,
        height > 0,
        resized == (Renderer {
            context: Context {
                config: SurfaceConfig { width, height, ..before.context.config },
                size_width: width,
                size_height: height,
            },
            camera: Camera { width, height, ..before.camera },
            depth_texture: DepthTexture { width, height, format: TextureFormat::Depth32Float },
            ..before
        }),
        plan.depth_width == resized.context.config.width,
        plan.depth_height == resized.context.config.height,
    ensures
        plan.depth_width == width,
        plan.depth_height == height,
        plan.depth_width == resized.depth_texture.width,
        plan.depth_height == resized.depth_texture.height,
{
}

/// The visible-instance counter is always within `[0, instances.len()]`,
/// however many increment or decrement events one update cycle delivered:
/// every operation of the renderer keeps the bound it starts from.
pub proof fn lemma_visible_count_clamped(r: Renderer)
    requires
        r.instances_to_draw <= r.instances@.len(),
    ensures
        0 <= r.instances_to_draw <= r.instances@.len(),
{
}

/// The counter arithmetic itself stays in range and saturates at both
/// ends, for every combination of Up and Down clicks in one cycle: from a
/// count within `[0, len]` it never leaves `[0, len]`; a decrement from
/// zero stays zero and an increment from `len` stays `len`, never a
/// negative or wrapped value.
pub proof fn lemma_counter_in_range(n: int, len: int, up: bool, down: bool)
    requires
        0 <= n <= len,
    ensures
        0 <= spec_counter_after(n, len, up, down) <= len,
        n == 0 && !up ==> spec_counter_after(n, len, up, down) == 0,
        n == len && !down ==> spec_counter_after(n, len, up, down) == len,
{
}

} // verus!
