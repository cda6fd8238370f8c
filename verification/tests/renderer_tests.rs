use gridlight::buffers::ToData;
use gridlight::commands::BindGroupId;
use gridlight::commands::BufferId;
use gridlight::commands::Cmd;
use gridlight::commands::PipelineId;
use gridlight::input::ElementState;
use gridlight::input::Key;
use gridlight::renderer::after_render;
use gridlight::renderer::step_state;
use gridlight::renderer::BindGroupLayoutRef;
use gridlight::renderer::LoopAction;
use gridlight::renderer::PresentMode;
use gridlight::renderer::RenderError;
use gridlight::renderer::RenderEvent;
use gridlight::renderer::RenderState;
use gridlight::renderer::Renderer;
use gridlight::renderer::ShaderId;
use gridlight::renderer::SurfaceStatus;
use gridlight::renderer::TextureFormat;

fn new_renderer() -> Renderer {
    Renderer::new(800, 600, TextureFormat::Bgra8UnormSrgb)
}

fn press_and_frame(r: &mut Renderer, key: Key) {
    // One frame: the key arrives, update runs, the frame boundary clears
    // the click, and the frame is rendered.
    r.input().update_key(key, ElementState::Pressed);
    r.update();
    r.input().frame();
    r.input().update_key(key, ElementState::Released);
    let _ = r.render(SurfaceStatus::Acquired);
}

#[test]
fn new_renderer_shows_full_grid() {
    let r = new_renderer();
    assert_eq!(r.instances.len(), 100);
    assert_eq!(r.instances_to_draw, 100);
    assert_eq!(r.lights.len(), 2);
    assert_eq!(r.context.config.width, 800);
    assert_eq!(r.context.config.height, 600);
    assert!(matches!(r.context.config.present_mode, PresentMode::Fifo));
}

#[test]
fn new_renderer_preloads_slot_bytes() {
    let r = new_renderer();
    // The instance buffer holds the encodings of all 100 grid instances.
    let instance_bytes = r.instance_buffer.raw.bytes();
    assert_eq!(instance_bytes.len(), 100 * 64);
    for (i, inst) in r.instances.iter().enumerate() {
        assert_eq!(&instance_bytes[i * 64..(i + 1) * 64], inst.to_data().as_slice());
    }
    // The camera uniform holds the initial (identity) matrix snapshot.
    assert_eq!(*r.camera_uniform.uniform.raw.bytes(), r.camera_matrix.to_data());
    // The lights storage holds both lights and its count says two.
    let mut lights_bytes: Vec<u8> = Vec::new();
    for l in &r.lights {
        lights_bytes.extend_from_slice(&l.to_data());
    }
    assert_eq!(*r.lights_storage.storage.raw.bytes(), lights_bytes);
    assert_eq!(*r.lights_storage.length_buffer.bytes(), 2u32.to_le_bytes().to_vec());
    // The debug light uniform holds the first light.
    assert_eq!(*r.lights_uniform.uniform.raw.bytes(), r.lights[0].to_data());
}

#[test]
fn grid_instances_are_centred_on_origin() {
    let r = new_renderer();
    // Instance 0 sits at (-4.5, -4.5), instance 99 at (4.5, 4.5).
    assert_eq!(r.instances[0].position.x, (-4.5f32).to_bits());
    assert_eq!(r.instances[0].position.y, (-4.5f32).to_bits());
    assert_eq!(r.instances[99].position.x, 4.5f32.to_bits());
    assert_eq!(r.instances[99].position.y, 4.5f32.to_bits());
    // Row-major: instance 23 is column 3, row 2.
    assert_eq!(r.instances[23].position.x, (3.0f32 - 4.5).to_bits());
    assert_eq!(r.instances[23].position.y, (2.0f32 - 4.5).to_bits());
    assert_eq!(r.instances[23].position.z, 0.0f32.to_bits());
}

#[test]
fn initial_lights_sit_at_opposite_corners() {
    let r = new_renderer();
    assert_eq!(r.lights[0].position.x, 2.0f32.to_bits());
    assert_eq!(r.lights[0].position.z, (-0.1f32).to_bits());
    assert_eq!(r.lights[1].position.x, (-2.0f32).to_bits());
    assert_eq!(r.lights[0].color.x, 1.0f32.to_bits());
}

#[test]
fn pipelines_have_agreed_group_ordering() {
    let r = new_renderer();
    // Main pipeline: texture at group 0, camera at 1, lights at 2.
    assert!(matches!(r.render_pipeline.shader, ShaderId::Main));
    assert_eq!(r.render_pipeline.bind_group_layouts.len(), 3);
    assert!(matches!(r.render_pipeline.bind_group_layouts[0], BindGroupLayoutRef::Texture));
    match &r.render_pipeline.bind_group_layouts[1] {
        BindGroupLayoutRef::Entries(e) => assert_eq!(e.len(), 1),
        _ => panic!("camera layout should be explicit entries"),
    }
    match &r.render_pipeline.bind_group_layouts[2] {
        BindGroupLayoutRef::Entries(e) => assert_eq!(e.len(), 2),
        _ => panic!("lights layout should be explicit entries"),
    }
    assert_eq!(r.render_pipeline.vertex_layouts.len(), 2);
    assert!(r.render_pipeline.depth.is_some());
    assert!(r.render_pipeline.alpha_blend);
    assert!(r.render_pipeline.front_face_ccw);
    assert!(r.render_pipeline.cull_back);
    assert_eq!(r.render_pipeline.sample_count, 1);
    // Debug pipeline: camera at 0, lights at 1.
    assert!(matches!(r.light_render_pipeline.shader, ShaderId::Light));
    assert_eq!(r.light_render_pipeline.bind_group_layouts.len(), 2);
    assert_eq!(r.light_render_pipeline.vertex_layouts.len(), 1);
}

#[test]
fn resize_keeps_depth_attachment_in_step() {
    // Any non-zero resize leaves the depth attachment exactly the size of
    // the configured surface, and the next frame renders against it.
    let mut r = new_renderer();
    for (w, h) in [(1024u32, 768u32), (1, 1), (3840, 2160)] {
        r.resize(w, h);
        assert_eq!(r.context.config.width, w);
        assert_eq!(r.context.config.height, h);
        assert_eq!(r.depth_texture.width, w);
        assert_eq!(r.depth_texture.height, h);
        r.update();
        let plan = r.render(SurfaceStatus::Acquired).unwrap();
        assert_eq!(plan.depth_width, w);
        assert_eq!(plan.depth_height, h);
    }
}

#[test]
fn zero_size_resize_is_ignored() {
    let mut r = new_renderer();
    r.resize(0, 600);
    assert_eq!(r.context.config.width, 800);
    assert_eq!(r.context.config.height, 600);
    assert_eq!(r.depth_texture.width, 800);
    r.resize(800, 0);
    assert_eq!(r.depth_texture.height, 600);
    r.resize(0, 0);
    assert_eq!(r.context.config.width, 800);
}

#[test]
fn resize_changes_only_camera_aspect() {
    let mut r = new_renderer();
    let eye_before = r.camera.eye;
    r.resize(1024, 768);
    assert_eq!(r.camera.width, 1024);
    assert_eq!(r.camera.height, 768);
    assert_eq!(r.camera.eye, eye_before);
}

#[test]
fn counter_clamps_at_zero_after_many_decrements() {
    // 1000 decrement frames on a 100-instance grid end at 0, not a wrapped
    // or negative value.
    let mut r = new_renderer();
    for _ in 0..1000 {
        press_and_frame(&mut r, Key::Down);
        assert!(r.instances_to_draw <= r.instances.len());
    }
    assert_eq!(r.instances_to_draw, 0);
    // And it comes back up, clamped at the top as well.
    for _ in 0..150 {
        press_and_frame(&mut r, Key::Up);
        assert!(r.instances_to_draw <= r.instances.len());
    }
    assert_eq!(r.instances_to_draw, 100);
}

#[test]
fn held_key_without_new_press_changes_nothing() {
    // The counter reacts to clicks, not to held keys: after the press
    // frame, further frames with the key still down leave it alone.
    let mut r = new_renderer();
    r.input().update_key(Key::Down, ElementState::Pressed);
    r.update();
    r.input().frame();
    let _ = r.render(SurfaceStatus::Acquired);
    assert_eq!(r.instances_to_draw, 99);
    for _ in 0..5 {
        r.update();
        r.input().frame();
        let _ = r.render(SurfaceStatus::Acquired);
    }
    assert_eq!(r.instances_to_draw, 99);
}

#[test]
fn space_regenerates_a_subset_of_the_grid() {
    let mut r = new_renderer();
    press_and_frame(&mut r, Key::Space);
    // Whatever the coin flips did, the result is a subset of the grid in
    // original order, and the counter stays in range.
    assert!(r.instances.len() <= 100);
    assert!(r.instances_to_draw <= r.instances.len());
    let grid = &r.instance_templates;
    let mut cursor = 0usize;
    for inst in &r.instances {
        let mut found = false;
        while cursor < grid.len() {
            if grid[cursor] == *inst {
                found = true;
                cursor += 1;
                break;
            }
            cursor += 1;
        }
        assert!(found, "regenerated instance not found in grid order");
    }
}

#[test]
fn render_plan_uploads_before_all_draws() {
    let mut r = new_renderer();
    r.update();
    let plan = r.render(SurfaceStatus::Acquired).unwrap();
    let first_non_upload = plan
        .commands
        .iter()
        .position(|c| !matches!(c, Cmd::UploadBuffer { .. }))
        .unwrap();
    for c in &plan.commands[first_non_upload..] {
        assert!(!matches!(c, Cmd::UploadBuffer { .. }), "upload after a pass command");
    }
}

#[test]
fn render_plan_has_expected_shape() {
    let mut r = new_renderer();
    r.update();
    let plan = r.render(SurfaceStatus::Acquired).unwrap();
    let cmds = &plan.commands;
    assert_eq!(cmds.len(), 19);
    // Five uploads: instances, camera, light storage, light count, debug light.
    assert!(matches!(cmds[0], Cmd::UploadBuffer { target: BufferId::Instances, .. }));
    assert!(matches!(cmds[1], Cmd::UploadBuffer { target: BufferId::CameraUniform, .. }));
    assert!(matches!(cmds[2], Cmd::UploadBuffer { target: BufferId::LightsStorage, .. }));
    match &cmds[3] {
        Cmd::UploadBuffer { target: BufferId::LightsCount, bytes } => {
            assert_eq!(*bytes, 2u32.to_le_bytes().to_vec());
        }
        _ => panic!("expected the light count upload"),
    }
    assert!(matches!(cmds[4], Cmd::UploadBuffer { target: BufferId::LightsUniform, .. }));
    // The pass: main pipeline with groups 0..2, instance stream, quad draw.
    assert!(matches!(cmds[5], Cmd::SetPipeline { pipeline: PipelineId::Main }));
    assert!(matches!(cmds[6], Cmd::SetBindGroup { index: 0, group: BindGroupId::Texture }));
    assert!(matches!(cmds[7], Cmd::SetBindGroup { index: 1, group: BindGroupId::Camera }));
    assert!(matches!(cmds[8], Cmd::SetBindGroup { index: 2, group: BindGroupId::Lights }));
    assert!(matches!(
        cmds[9],
        Cmd::SetVertexBuffer { slot: 1, buffer: BufferId::Instances, first_byte: 0, byte_len: 6400 }
    ));
    assert!(matches!(cmds[10], Cmd::SetVertexBuffer { slot: 0, buffer: BufferId::QuadVertices, .. }));
    assert!(matches!(cmds[11], Cmd::SetIndexBuffer { buffer: BufferId::QuadIndices, .. }));
    assert!(matches!(
        cmds[12],
        Cmd::DrawIndexed { index_count: 6, first_instance: 0, instance_count: 100, .. }
    ));
    // Then the debug lights with camera at 0 and lights at 1.
    assert!(matches!(cmds[13], Cmd::SetPipeline { pipeline: PipelineId::DebugLights }));
    assert!(matches!(cmds[14], Cmd::SetBindGroup { index: 0, group: BindGroupId::Camera }));
    assert!(matches!(cmds[15], Cmd::SetBindGroup { index: 1, group: BindGroupId::Lights }));
    assert!(matches!(
        cmds[18],
        Cmd::DrawIndexed { index_count: 6, first_instance: 0, instance_count: 2, .. }
    ));
}

#[test]
fn render_draws_only_visible_instances() {
    let mut r = new_renderer();
    press_and_frame(&mut r, Key::Down);
    press_and_frame(&mut r, Key::Down);
    r.update();
    let plan = r.render(SurfaceStatus::Acquired).unwrap();
    match &plan.commands[12] {
        Cmd::DrawIndexed { instance_count, .. } => assert_eq!(*instance_count, 98),
        other => panic!("expected the main draw, got {:?}", other),
    }
    // The instance upload covers exactly the visible prefix.
    match &plan.commands[0] {
        Cmd::UploadBuffer { bytes, .. } => assert_eq!(bytes.len(), 98 * 64),
        other => panic!("expected the instance upload, got {:?}", other),
    }
}

#[test]
fn render_clears_to_fixed_background_and_far_depth() {
    let mut r = new_renderer();
    r.update();
    let plan = r.render(SurfaceStatus::Acquired).unwrap();
    assert_eq!(plan.clear_color.r_bits, 0.1f64.to_bits());
    assert_eq!(plan.clear_color.g_bits, 0.2f64.to_bits());
    assert_eq!(plan.clear_color.b_bits, 0.3f64.to_bits());
    assert_eq!(plan.clear_color.a_bits, 1.0f64.to_bits());
    assert_eq!(plan.depth_clear_bits, 1.0f32.to_bits());
}

#[test]
fn render_maps_surface_failures_to_tagged_errors() {
    let mut r = new_renderer();
    r.update();
    assert!(matches!(r.render(SurfaceStatus::Lost), Err(RenderError::Lost)));
    r.update();
    assert!(matches!(r.render(SurfaceStatus::OutOfMemory), Err(RenderError::OutOfMemory)));
    r.update();
    match r.render(SurfaceStatus::Other(String::from("timeout"))) {
        Err(RenderError::Other(msg)) => assert_eq!(msg, "timeout"),
        other => panic!("expected the tagged error, got {:?}", other),
    }
}

#[test]
fn after_render_dispatch_matches_loop_policy() {
    let mut r = new_renderer();
    r.update();
    let ok = r.render(SurfaceStatus::Acquired);
    assert!(matches!(after_render(&ok), LoopAction::Continue));
    assert!(matches!(after_render(&Err(RenderError::Lost)), LoopAction::RecoverWithResize));
    assert!(matches!(after_render(&Err(RenderError::OutOfMemory)), LoopAction::Exit));
    assert!(matches!(
        after_render(&Err(RenderError::Other(String::from("x")))),
        LoopAction::Continue
    ));
}

#[test]
fn lifecycle_states_follow_the_machine() {
    assert_eq!(
        step_state(RenderState::Initializing, RenderEvent::ContextBuilt),
        Some(RenderState::Ready)
    );
    assert_eq!(
        step_state(RenderState::Ready, RenderEvent::ResizeRequested { width: 640, height: 480 }),
        Some(RenderState::Resizing)
    );
    assert_eq!(
        step_state(RenderState::Resizing, RenderEvent::AttachmentsRebuilt),
        Some(RenderState::Ready)
    );
    assert_eq!(
        step_state(RenderState::Ready, RenderEvent::ResizeRequested { width: 0, height: 480 }),
        Some(RenderState::Ready)
    );
    assert_eq!(
        step_state(RenderState::Ready, RenderEvent::AcquireFailedLost),
        Some(RenderState::SurfaceLost)
    );
    assert_eq!(
        step_state(RenderState::SurfaceLost, RenderEvent::Recovered),
        Some(RenderState::Ready)
    );
    assert_eq!(step_state(RenderState::Ready, RenderEvent::AcquireFailedOutOfMemory), None);
    assert_eq!(step_state(RenderState::SurfaceLost, RenderEvent::AcquireFailedOutOfMemory), None);
}

#[test]
fn camera_matrix_upload_follows_set_camera_matrix() {
    let mut r = new_renderer();
    let vp: [u32; 4] = [1, 2, 3, 4];
    let mut m: [u32; 16] = [0; 16];
    for (i, entry) in m.iter_mut().enumerate() {
        *entry = (i as u32) * 11;
    }
    r.set_camera_matrix(gridlight::camera::CameraUniform::new(vp, m));
    r.update();
    let plan = r.render(SurfaceStatus::Acquired).unwrap();
    match &plan.commands[1] {
        Cmd::UploadBuffer { bytes, .. } => {
            assert_eq!(bytes.len(), 80);
            assert_eq!(&bytes[0..4], &1u32.to_le_bytes());
            assert_eq!(&bytes[16..20], &0u32.to_le_bytes());
            assert_eq!(&bytes[20..24], &11u32.to_le_bytes());
        }
        other => panic!("expected the camera upload, got {:?}", other),
    }
}

#[test]
fn set_light_position_moves_one_light() {
    let mut r = new_renderer();
    let new_pos = gridlight::codec::Vec3Bits {
        x: 9.0f32.to_bits(),
        y: 8.0f32.to_bits(),
        z: 7.0f32.to_bits(),
    };
    let color_before = r.lights[0].color;
    let other_before = r.lights[1];
    r.set_light_position(0, new_pos);
    assert_eq!(r.lights[0].position, new_pos);
    assert_eq!(r.lights[0].color, color_before);
    assert_eq!(r.lights[1], other_before);
}

#[test]
fn get_size_reports_configured_size() {
    let mut r = new_renderer();
    assert_eq!(r.get_size(), (800, 600));
    r.resize(1280, 720);
    assert_eq!(r.get_size(), (1280, 720));
}
