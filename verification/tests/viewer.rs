//! End-to-end tests of the render core: session lifecycle, pipeline
//! compatibility and the pan/zoom/drag state machine.

use atlas::{
    Action, BindGroupLayout, BindingEntry, BindingKind, InputEvent, InteractionController,
    MapRenderpass, MouseButton, PipelineError, PrimitiveTopology, RenderSession, SamplerData,
    ScrollDelta, ShaderInterface, SurfaceFormat, UniformBuffer, Visibility, ZOOM_MAX, ZOOM_MIN,
    ZOOM_UNIT,
};

/// The shader interface the map pass expects: both entry points, frame
/// uniforms at set 0, sampler and texture at set 1.
fn matching_shader() -> ShaderInterface {
    ShaderInterface {
        group_layouts: vec![UniformBuffer::bind_group_layout(), SamplerData::bglayout()],
        has_vertex_entry: true,
        has_fragment_entry: true,
    }
}

fn new_session(width: u32, height: u32) -> RenderSession {
    let shader = matching_shader();
    let (session, _upload) = RenderSession::new(
        width,
        height,
        SurfaceFormat::Bgra8Unorm,
        &shader,
        64,
        64,
        0,
    )
    .expect("matching shader must be accepted");
    session
}

#[test]
fn session_starts_at_identity_camera() {
    let session = new_session(300, 200);
    assert_eq!(session.metadata.map_zoom, ZOOM_UNIT);
    assert_eq!(session.metadata.map_translation.x, 0);
    assert_eq!(session.metadata.map_translation.y, 0);
    assert_eq!(session.metadata.window_size.x, 300);
    assert_eq!(session.metadata.window_size.y, 200);
    assert_eq!(session.metadata.time_micros, 0);
}

#[test]
fn surface_config_requests_window_size() {
    let session = new_session(300, 200);
    let cfg = session.configure_surface();
    assert_eq!(cfg.width, 300);
    assert_eq!(cfg.height, 200);
    assert_eq!(cfg.format, SurfaceFormat::Bgra8Unorm);
    assert_eq!(cfg.view_formats, vec![SurfaceFormat::Bgra8UnormSrgb]);
    assert_eq!(cfg.desired_maximum_frame_latency, 2);
    assert!(cfg.usage.render_attachment);
    assert!(!cfg.usage.copy_dst);
}

#[test]
fn resize_propagates_to_surface_and_uniforms() {
    let mut session = new_session(300, 200);
    let cfg = session.resize(800, 600);
    assert_eq!(cfg.width, 800);
    assert_eq!(cfg.height, 600);
    assert_eq!(session.metadata.window_size.x, 800);
    assert_eq!(session.metadata.window_size.y, 600);
    let plan = session.render(1_500_000);
    assert_eq!(plan.commands.len(), 1);
    assert_eq!(plan.commands[0].uniforms.window_size.x, 800);
    assert_eq!(plan.commands[0].uniforms.window_size.y, 600);
    assert_eq!(plan.commands[0].uniforms.time_micros, 1_500_000);
}

#[test]
fn render_records_one_clearing_fullscreen_draw() {
    let mut session = new_session(300, 200);
    let plan = session.render(42);
    assert_eq!(plan.view_format, SurfaceFormat::Bgra8UnormSrgb);
    assert_eq!(plan.commands.len(), 1);
    let cmd = &plan.commands[0];
    assert_eq!(cmd.vertices, 4);
    assert_eq!(cmd.instances, 1);
    assert!(cmd.store);
    assert_eq!((cmd.clear_color.r, cmd.clear_color.g, cmd.clear_color.b), (0, 0, 0));
    assert_eq!(cmd.bind_groups.len(), 2);
    assert_eq!(cmd.pipeline.topology, PrimitiveTopology::TriangleStrip);
    assert_eq!(cmd.uniforms.time_micros, 42);
}

#[test]
fn pipeline_rejects_mismatched_binding_sets() {
    // Swapping the two binding sets must fail fast as a construction
    // error.
    let shader = ShaderInterface {
        group_layouts: vec![SamplerData::bglayout(), UniformBuffer::bind_group_layout()],
        has_vertex_entry: true,
        has_fragment_entry: true,
    };
    let r = MapRenderpass::new(SurfaceFormat::Bgra8Unorm, &shader, 64, 64);
    assert!(matches!(r, Err(PipelineError::BindingSetMismatch)));
}

#[test]
fn pipeline_rejects_missing_entry_points() {
    let mut shader = matching_shader();
    shader.has_vertex_entry = false;
    let r = MapRenderpass::new(SurfaceFormat::Bgra8Unorm, &shader, 64, 64);
    assert!(matches!(r, Err(PipelineError::MissingVertexEntry)));

    let mut shader = matching_shader();
    shader.has_fragment_entry = false;
    let r = MapRenderpass::new(SurfaceFormat::Bgra8Unorm, &shader, 64, 64);
    assert!(matches!(r, Err(PipelineError::MissingFragmentEntry)));
}

#[test]
fn pipeline_rejects_wrong_slot_order() {
    // A shader that declares the sampler before the texture in set 1
    // differs structurally and must be refused.
    let wrong_set1 = BindGroupLayout {
        entries: vec![
            BindingEntry {
                binding: 1,
                visibility: Visibility::FragmentOnly,
                kind: BindingKind::FloatTexture2d,
            },
            BindingEntry {
                binding: 0,
                visibility: Visibility::FragmentOnly,
                kind: BindingKind::FilteringSampler,
            },
        ],
    };
    let shader = ShaderInterface {
        group_layouts: vec![UniformBuffer::bind_group_layout(), wrong_set1],
        has_vertex_entry: true,
        has_fragment_entry: true,
    };
    let r = MapRenderpass::new(SurfaceFormat::Bgra8Unorm, &shader, 64, 64);
    assert!(matches!(r, Err(PipelineError::BindingSetMismatch)));
}

#[test]
fn reload_keeps_pipeline_on_failure() {
    let mut session = new_session(300, 200);
    let format_before = session.renderpasses.map_bg_rp.pipeline.color_format;
    let mut bad = matching_shader();
    bad.has_fragment_entry = false;
    let r = session.reload_shaders(&bad);
    assert!(r.is_err());
    assert_eq!(session.renderpasses.map_bg_rp.pipeline.color_format, format_before);
    assert_eq!(
        session.renderpasses.map_bg_rp.pipeline.topology,
        PrimitiveTopology::TriangleStrip
    );
    let r = session.reload_shaders(&matching_shader());
    assert!(r.is_ok());
}

#[test]
fn sampler_resource_describes_image_upload() {
    let (data, upload) = SamplerData::new(73, 65);
    assert_eq!(data.texture.width, 73);
    assert_eq!(data.texture.height, 65);
    assert_eq!(data.texture.format, SurfaceFormat::Rgba8UnormSrgb);
    assert_eq!(upload.bytes_per_row, 4 * 73);
    assert_eq!(upload.rows_per_image, 65);
    assert_eq!(data.bind_group.layout.entries.len(), 2);
    assert_eq!(data.bind_group.layout.entries[0].binding, 0);
    assert_eq!(data.bind_group.layout.entries[1].binding, 1);
}

#[test]
fn uniform_buffer_is_one_packed_struct() {
    let session = new_session(300, 200);
    let u = UniformBuffer::new(session.metadata);
    assert_eq!(u.size_bytes, 32);
    let layout = UniformBuffer::bind_group_layout();
    assert_eq!(layout.entries.len(), 1);
    assert_eq!(layout.entries[0].binding, 0);
}

#[test]
fn scroll_zooms_and_clamps() {
    let mut session = new_session(300, 200);
    let mut ctl = InteractionController::new();
    // One line up: 1.0 * 1.25 = 1.25.
    let a = ctl.handle_event(&mut session, InputEvent::MouseWheel {
        delta: ScrollDelta::LineDelta(1000),
    });
    assert!(matches!(a, Action::Ignore));
    assert_eq!(session.metadata.map_zoom, 1_250_000);
    // Scrolling far up saturates at 10x.
    for _ in 0..40 {
        ctl.handle_event(&mut session, InputEvent::MouseWheel {
            delta: ScrollDelta::LineDelta(1000),
        });
    }
    assert_eq!(session.metadata.map_zoom, ZOOM_MAX);
    // Scrolling far down saturates at 0.1x.
    for _ in 0..80 {
        ctl.handle_event(&mut session, InputEvent::MouseWheel {
            delta: ScrollDelta::LineDelta(-1000),
        });
    }
    assert_eq!(session.metadata.map_zoom, ZOOM_MIN);
    // A scale factor below zero also collapses to 0.1x.
    ctl.handle_event(&mut session, InputEvent::MouseWheel {
        delta: ScrollDelta::PixelDelta(-9000),
    });
    assert_eq!(session.metadata.map_zoom, ZOOM_MIN);
}

#[test]
fn end_to_end_scroll_then_drag() {
    // Window 300x200; pointer positions below are named in render
    // space (origin bottom-left).
    let mut session = new_session(300, 200);
    let mut ctl = InteractionController::new();

    // Scroll up 4 lines: zoom 1.0 * 1.25^4 = 2.44140625, held exactly
    // in millionths up to the final rounded-down step.
    for _ in 0..4 {
        ctl.handle_event(&mut session, InputEvent::MouseWheel {
            delta: ScrollDelta::LineDelta(1000),
        });
    }
    assert_eq!(session.metadata.map_zoom, 2_441_406);
    assert!(ZOOM_MIN <= session.metadata.map_zoom && session.metadata.map_zoom <= ZOOM_MAX);

    // Move to render (100, 100): device y = 200 - 100.
    ctl.handle_event(&mut session, InputEvent::CursorMoved { x: 100, y: 100 });
    assert_eq!(session.metadata.mouse_pos.x, 100);
    assert_eq!(session.metadata.mouse_pos.y, 100);

    // Right-press there, move to render (150, 80), release.
    ctl.handle_event(&mut session, InputEvent::MouseInput {
        button: MouseButton::Right,
        pressed: true,
    });
    ctl.handle_event(&mut session, InputEvent::CursorMoved { x: 150, y: 120 });
    assert_eq!(session.metadata.mouse_pos.y, 80);
    ctl.handle_event(&mut session, InputEvent::MouseInput {
        button: MouseButton::Right,
        pressed: false,
    });

    // Committed translation: (100 - 150, 80 - 100) = (-50, -20).
    assert_eq!(session.metadata.map_translation.x, -50);
    assert_eq!(session.metadata.map_translation.y, -20);
}

#[test]
fn drag_sessions_compose_additively() {
    let mut session = new_session(300, 200);
    let mut ctl = InteractionController::new();

    // First cycle: press at render (10, 190), move to (40, 150),
    // release.
    ctl.handle_event(&mut session, InputEvent::CursorMoved { x: 10, y: 10 });
    ctl.handle_event(&mut session, InputEvent::MouseInput {
        button: MouseButton::Right,
        pressed: true,
    });
    ctl.handle_event(&mut session, InputEvent::CursorMoved { x: 40, y: 50 });
    ctl.handle_event(&mut session, InputEvent::MouseInput {
        button: MouseButton::Right,
        pressed: false,
    });
    let at_release = (session.metadata.map_translation.x, session.metadata.map_translation.y);
    assert_eq!(at_release, (10 - 40, 150 - 190));

    // Second cycle from render (70, 120) to (90, 170): adds
    // (70 - 90, 170 - 120).
    ctl.handle_event(&mut session, InputEvent::CursorMoved { x: 70, y: 80 });
    ctl.handle_event(&mut session, InputEvent::MouseInput {
        button: MouseButton::Right,
        pressed: true,
    });
    ctl.handle_event(&mut session, InputEvent::CursorMoved { x: 90, y: 30 });
    assert_eq!(session.metadata.map_translation.x, at_release.0 + (70 - 90));
    assert_eq!(session.metadata.map_translation.y, at_release.1 + (170 - 120));
}

#[test]
fn zero_motion_drag_commits_nothing() {
    let mut session = new_session(300, 200);
    let mut ctl = InteractionController::new();
    ctl.handle_event(&mut session, InputEvent::CursorMoved { x: 25, y: 35 });

    // Press, wander, come back, release: nothing accumulates.
    ctl.handle_event(&mut session, InputEvent::MouseInput {
        button: MouseButton::Right,
        pressed: true,
    });
    ctl.handle_event(&mut session, InputEvent::CursorMoved { x: 120, y: 90 });
    ctl.handle_event(&mut session, InputEvent::CursorMoved { x: 25, y: 35 });
    ctl.handle_event(&mut session, InputEvent::MouseInput {
        button: MouseButton::Right,
        pressed: false,
    });
    assert_eq!(session.metadata.map_translation.x, 0);
    assert_eq!(session.metadata.map_translation.y, 0);

    // Press and release in place, without any move at all.
    ctl.handle_event(&mut session, InputEvent::MouseInput {
        button: MouseButton::Right,
        pressed: true,
    });
    ctl.handle_event(&mut session, InputEvent::MouseInput {
        button: MouseButton::Right,
        pressed: false,
    });
    assert_eq!(session.metadata.map_translation.x, 0);
    assert_eq!(session.metadata.map_translation.y, 0);
}

#[test]
fn left_drag_is_inert_and_other_events_ignored() {
    let mut session = new_session(300, 200);
    let mut ctl = InteractionController::new();
    ctl.handle_event(&mut session, InputEvent::CursorMoved { x: 5, y: 5 });
    ctl.handle_event(&mut session, InputEvent::MouseInput {
        button: MouseButton::Left,
        pressed: true,
    });
    ctl.handle_event(&mut session, InputEvent::CursorMoved { x: 250, y: 150 });
    assert_eq!(session.metadata.map_translation.x, 0);
    assert_eq!(session.metadata.map_translation.y, 0);
    ctl.handle_event(&mut session, InputEvent::MouseInput {
        button: MouseButton::Left,
        pressed: false,
    });
    let a = ctl.handle_event(&mut session, InputEvent::Unrecognized);
    assert!(matches!(a, Action::Ignore));
    let a = ctl.handle_event(&mut session, InputEvent::CloseRequested);
    assert!(matches!(a, Action::Exit));
    let a = ctl.handle_event(&mut session, InputEvent::RedrawRequested);
    assert!(matches!(a, Action::Render));
}

#[test]
fn reload_key_triggers_reload_action() {
    let mut session = new_session(300, 200);
    let mut ctl = InteractionController::new();
    let a = ctl.handle_event(&mut session, InputEvent::KeyboardInput { text: vec!['r'] });
    assert!(matches!(a, Action::ReloadShaders));
    let a = ctl.handle_event(&mut session, InputEvent::KeyboardInput { text: vec!['q'] });
    assert!(matches!(a, Action::Ignore));
    let a = ctl.handle_event(&mut session, InputEvent::KeyboardInput {
        text: vec!['r', 'r'],
    });
    assert!(matches!(a, Action::Ignore));
}

#[test]
fn resize_event_reconfigures_surface() {
    let mut session = new_session(300, 200);
    let mut ctl = InteractionController::new();
    let a = ctl.handle_event(&mut session, InputEvent::Resized { width: 1024, height: 768 });
    match a {
        Action::Reconfigure(cfg) => {
            assert_eq!(cfg.width, 1024);
            assert_eq!(cfg.height, 768);
        }
        other => panic!("expected a reconfigure action, got {:?}", other),
    }
    assert_eq!(session.metadata.window_size.x, 1024);
    assert_eq!(session.metadata.window_size.y, 768);
}

#[test]
fn srgb_suffix_maps_linear_formats() {
    assert_eq!(
        SurfaceFormat::Bgra8Unorm.add_srgb_suffix(),
        SurfaceFormat::Bgra8UnormSrgb
    );
    assert_eq!(
        SurfaceFormat::Rgba8Unorm.add_srgb_suffix(),
        SurfaceFormat::Rgba8UnormSrgb
    );
    assert_eq!(
        SurfaceFormat::Bgra8UnormSrgb.add_srgb_suffix(),
        SurfaceFormat::Bgra8UnormSrgb
    );
}
