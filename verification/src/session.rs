//! The render session: owner of the surface configuration, the pass
//! registry and the frame-global state, driving acquire, record, submit
//! and present once per frame.
//!
//! The session decides every value of every frame — the surface
//! configuration, the time stamp, the pass order and each pass's draw —
//! and hands the shell a [`FramePlan`] to replay against the device.

use vstd::prelude::*;

use crate::geom::Vec2;
use crate::gpu::{CompositeAlphaMode, PipelineError, PresentMode, ShaderInterface,
    SurfaceConfig, SurfaceFormat, TextureUsages, UploadLayout};
use crate::maprender::{map_draw_cmd, map_shader_accepted, MapRenderpass, Metadata, ZOOM_UNIT};
use crate::renderpass::{ColorRenderPass, DrawCommand};

verus! {

/// All active render passes, driven in registration order; that order
/// is the compositing order.  Currently the roster is the single map
/// pass.
pub struct ColorRenderpasses {
    pub map_bg_rp: MapRenderpass,
}

impl ColorRenderpasses {
    /// Every registered pass is well formed.
    pub open spec fn wf(self) -> bool {
        self.map_bg_rp.wf()
    }

    /// Builds the full pass roster for the session's surface format.
    pub fn new(
        surface_format: SurfaceFormat,
        shader: &ShaderInterface,
        image_width: u32,
        image_height: u32,
    ) -> (r: Result<(ColorRenderpasses, UploadLayout), PipelineError>)
        requires
            4 * image_width <= u32::MAX,
        ensures
            r is Ok <==> map_shader_accepted(*shader),
            r matches Ok(ok) ==> {
                &&& ok.0.wf()
                &&& ok.0.map_bg_rp.color_format == surface_format
                &&& ok.0.map_bg_rp.uniforms is None
                &&& ok.0.map_bg_rp.sampler_data.wf_for(image_width, image_height)
                &&& ok.1 == (UploadLayout {
                    offset: 0,
                    bytes_per_row: (4 * image_width) as u32,
                    rows_per_image: image_height,
                })
            },
            r matches Err(e) ==> {
                &&& !shader.has_vertex_entry ==> e == PipelineError::MissingVertexEntry
                &&& shader.has_vertex_entry && !shader.has_fragment_entry ==> e
                    == PipelineError::MissingFragmentEntry
                &&& shader.has_vertex_entry && shader.has_fragment_entry ==> e
                    == PipelineError::BindingSetMismatch
            },
    {
        let (map_bg_rp, upload) = MapRenderpass::new(
            surface_format,
            shader,
            image_width,
            image_height,
        )?;
        Ok((ColorRenderpasses { map_bg_rp }, upload))
    }

    /// Records every pass's draw for this frame, in registration
    /// order, against the shared frame uniforms.
    pub fn render(&mut self, ued: Metadata) -> (cmds: Vec<DrawCommand>)
        requires
            old(self).wf(),
        ensures
            final(self).wf(),
            cmds@.len() == 1,
            map_draw_cmd(old(self).map_bg_rp, ued, cmds@[0]),
            final(self).map_bg_rp.uniforms matches Some(u) && u.contents == ued,
            final(self).map_bg_rp.pipeline == old(self).map_bg_rp.pipeline,
            final(self).map_bg_rp.sampler_data == old(self).map_bg_rp.sampler_data,
            final(self).map_bg_rp.color_format == old(self).map_bg_rp.color_format,
    {
        let cmd = self.map_bg_rp.render(ued);
        vec![cmd]
    }

    /// Rebuilds every pass's pipeline from freshly read shader text, in
    /// registration order.  A failing pass keeps its previous pipeline.
    pub fn reload_shaders(&mut self, shader: &ShaderInterface) -> (r: Result<(), PipelineError>)
        requires
            old(self).wf(),
        ensures
            final(self).wf(),
            r is Ok <==> map_shader_accepted(*shader),
            final(self).map_bg_rp.uniforms == old(self).map_bg_rp.uniforms,
            final(self).map_bg_rp.sampler_data == old(self).map_bg_rp.sampler_data,
            final(self).map_bg_rp.color_format == old(self).map_bg_rp.color_format,
            r is Err ==> final(self).map_bg_rp.pipeline == old(self).map_bg_rp.pipeline,
    {
        self.map_bg_rp.reload_shaders(shader)
    }
}

/// Everything the shell must replay for one frame: the gamma-correct
/// view format for the acquired surface texture, and each pass's draw
/// in compositing order.
pub struct FramePlan {
    pub view_format: SurfaceFormat,
    pub commands: Vec<DrawCommand>,
}

/// What a surface configuration must request for a session with the
/// given format and pixel size: render-attachment usage, the sRGB
/// companion view format, automatic alpha, a maximum latency of two
/// frames and vsync-preferring presentation.
pub open spec fn surface_config_spec(
    format: SurfaceFormat,
    width: u32,
    height: u32,
    cfg: SurfaceConfig,
) -> bool {
    &&& cfg.usage == (TextureUsages {
        render_attachment: true,
        copy_dst: false,
        texture_binding: false,
    })
    &&& cfg.format == format
    &&& cfg.view_formats@ == seq![format.srgb_suffix_spec()]
    &&& cfg.alpha_mode == CompositeAlphaMode::Auto
    &&& cfg.width == width
    &&& cfg.height == height
    &&& cfg.desired_maximum_frame_latency == 2
    &&& cfg.present_mode == PresentMode::AutoVsync
}

/// The render session: the surface and its configuration, the pass
/// roster, the session start instant and the live frame uniforms.
/// Owned exclusively by one event loop; mutated only through `resize`
/// and the frame-update calls.
pub struct RenderSession {
    pub width: u32,
    pub height: u32,
    pub surface_format: SurfaceFormat,
    pub renderpasses: ColorRenderpasses,
    pub metadata: Metadata,
    pub start_micros: u64,
}

/// How `resize` changes a session: the stored size and the uniform's
/// window-size field take the new dimensions, nothing else moves, and
/// the returned configuration requests a surface of exactly the new
/// size.
pub open spec fn resize_post(
    s0: RenderSession,
    s1: RenderSession,
    cfg: SurfaceConfig,
    width: u32,
    height: u32,
) -> bool {
    &&& s1.width == width
    &&& s1.height == height
    &&& s1.metadata == (Metadata {
        window_size: Vec2 { x: width as i64, y: height as i64 },
        ..s0.metadata
    })
    &&& s1.surface_format == s0.surface_format
    &&& s1.start_micros == s0.start_micros
    &&& s1.renderpasses == s0.renderpasses
    &&& surface_config_spec(s0.surface_format, width, height, cfg)
}

/// How one frame changes a session: the elapsed time is stamped into
/// the uniforms, every pass draws against that exact snapshot, and the
/// presented view uses the gamma-correct companion format.
pub open spec fn render_post(
    s0: RenderSession,
    s1: RenderSession,
    plan: FramePlan,
    now_micros: u64,
) -> bool {
    &&& s1.metadata == (Metadata {
        time_micros: (now_micros - s0.start_micros) as u64,
        ..s0.metadata
    })
    &&& s1.width == s0.width
    &&& s1.height == s0.height
    &&& s1.surface_format == s0.surface_format
    &&& s1.start_micros == s0.start_micros
    &&& plan.view_format == s0.surface_format.srgb_suffix_spec()
    &&& plan.commands@.len() == 1
    &&& map_draw_cmd(s0.renderpasses.map_bg_rp, s1.metadata, plan.commands@[0])
    &&& s1.renderpasses.map_bg_rp.pipeline == s0.renderpasses.map_bg_rp.pipeline
    &&& s1.renderpasses.map_bg_rp.sampler_data == s0.renderpasses.map_bg_rp.sampler_data
    &&& s1.renderpasses.map_bg_rp.color_format == s0.renderpasses.map_bg_rp.color_format
}

impl RenderSession {
    /// The session invariant: the uniforms are well formed, the passes
    /// are well formed for the session's surface format, and the
    /// uniform window-size field agrees with the stored pixel size.
    pub open spec fn wf(self) -> bool {
        &&& self.metadata.wf()
        &&& self.renderpasses.wf()
        &&& self.metadata.window_size == (Vec2 {
            x: self.width as i64,
            y: self.height as i64,
        })
        &&& self.renderpasses.map_bg_rp.color_format == self.surface_format
    }

    /// Opens a session over an acquired device: the window's pixel
    /// size, the first supported surface format, the decoded map image
    /// and the session start instant.  Interaction state starts at
    /// zoom 1.0x with zero translation.  Fails fast when the shader
    /// does not match the map pass's binding layouts.
    pub fn new(
        width: u32,
        height: u32,
        surface_format: SurfaceFormat,
        shader: &ShaderInterface,
        image_width: u32,
        image_height: u32,
        start_micros: u64,
    ) -> (r: Result<(RenderSession, UploadLayout), PipelineError>)
        requires
            4 * image_width <= u32::MAX,
        ensures
            r is Ok <==> map_shader_accepted(*shader),
            r matches Ok(ok) ==> {
                &&& ok.0.wf()
                &&& ok.0.width == width
                &&& ok.0.height == height
                &&& ok.0.surface_format == surface_format
                &&& ok.0.start_micros == start_micros
                &&& ok.0.metadata == (Metadata {
                    time_micros: 0,
                    map_zoom: ZOOM_UNIT,
                    map_translation: Vec2 { x: 0, y: 0 },
                    window_size: Vec2 { x: width as i64, y: height as i64 },
                    mouse_pos: Vec2 { x: 0, y: 0 },
                })
                &&& ok.0.renderpasses.map_bg_rp.uniforms is None
                &&& ok.0.renderpasses.map_bg_rp.sampler_data.wf_for(image_width, image_height)
                &&& ok.1 == (UploadLayout {
                    offset: 0,
                    bytes_per_row: (4 * image_width) as u32,
                    rows_per_image: image_height,
                })
            },
            r matches Err(e) ==> {
                &&& !shader.has_vertex_entry ==> e == PipelineError::MissingVertexEntry
                &&& shader.has_vertex_entry && !shader.has_fragment_entry ==> e
                    == PipelineError::MissingFragmentEntry
                &&& shader.has_vertex_entry && shader.has_fragment_entry ==> e
                    == PipelineError::BindingSetMismatch
            },
    {
        let (renderpasses, upload) = ColorRenderpasses::new(
            surface_format,
            shader,
            image_width,
            image_height,
        )?;
        let metadata = Metadata {
            time_micros: 0,
            map_zoom: ZOOM_UNIT,
            map_translation: Vec2::zero(),
            window_size: Vec2::new(width as i64, height as i64),
            mouse_pos: Vec2::zero(),
        };
        Ok(
            (
                RenderSession {
                    width,
                    height,
                    surface_format,
                    renderpasses,
                    metadata,
                    start_micros,
                },
                upload,
            ),
        )
    }

    /// The configuration the surface is (re)configured with for the
    /// session's current format and size.
    pub fn configure_surface(&self) -> (cfg: SurfaceConfig)
        ensures
            surface_config_spec(self.surface_format, self.width, self.height, cfg),
    {
        let cfg = SurfaceConfig {
            usage: TextureUsages {
                render_attachment: true,
                copy_dst: false,
                texture_binding: false,
            },
            format: self.surface_format,
            view_formats: vec![self.surface_format.add_srgb_suffix()],
            alpha_mode: CompositeAlphaMode::Auto,
            width: self.width,
            height: self.height,
            desired_maximum_frame_latency: 2,
            present_mode: PresentMode::AutoVsync,
        };
        proof {
            assert(cfg.view_formats@ =~= seq![self.surface_format.srgb_suffix_spec()]);
        }
        cfg
    }

    /// Takes a new window pixel size: updates the stored size and the
    /// uniform window-size field, and returns the configuration the
    /// surface must be reconfigured with before the next frame.
    pub fn resize(&mut self, width: u32, height: u32) -> (cfg: SurfaceConfig)
        requires
            old(self).wf(),
        ensures
            final(self).wf(),
            resize_post(*old(self), *final(self), cfg, width, height),
    {
        self.width = width;
        self.height = height;
        self.metadata.window_size = Vec2::new(width as i64, height as i64);
        self.configure_surface()
    }

    /// Produces one frame: stamps the elapsed time into the frame
    /// uniforms, records every pass's draw against that snapshot, and
    /// names the gamma-correct view format for the acquired surface
    /// texture.  `now_micros` comes from the session's monotonic
    /// clock.
    pub fn render(&mut self, now_micros: u64) -> (plan: FramePlan)
        requires
            old(self).wf(),
            now_micros >= old(self).start_micros,
        ensures
            final(self).wf(),
            render_post(*old(self), *final(self), plan, now_micros),
    {
        self.metadata.time_micros = now_micros - self.start_micros;
        let ued = self.metadata;
        let commands = self.renderpasses.render(ued);
        FramePlan { view_format: self.surface_format.add_srgb_suffix(), commands }
    }

    /// Forwards a shader reload to the whole pass registry.
    pub fn reload_shaders(&mut self, shader: &ShaderInterface) -> (r: Result<(), PipelineError>)
        requires
            old(self).wf(),
        ensures
            final(self).wf(),
            r is Ok <==> map_shader_accepted(*shader),
            final(self).metadata == old(self).metadata,
            final(self).width == old(self).width,
            final(self).height == old(self).height,
            final(self).surface_format == old(self).surface_format,
            final(self).start_micros == old(self).start_micros,
            r is Err ==> final(self).renderpasses.map_bg_rp.pipeline == old(
                self,
            ).renderpasses.map_bg_rp.pipeline,
    {
        self.renderpasses.reload_shaders(shader)
    }
}

/// Resize propagation: after `resize(W, H)`, the surface is asked for
/// exactly a `W` by `H` texture, and the frame recorded by the next
/// `render` carries a window-size uniform field of exactly `(W, H)`.
pub proof fn lemma_resize_propagation(
    s0: RenderSession,
    s1: RenderSession,
    cfg: SurfaceConfig,
    s2: RenderSession,
    plan: FramePlan,
    width: u32,
    height: u32,
    now_micros: u64,
)
    requires
        resize_post(s0, s1, cfg, width, height),
        render_post(s1, s2, plan, now_micros),
    ensures
        cfg.width == width,
        cfg.height == height,
        plan.commands@.len() == 1,
        plan.commands@[0].uniforms.window_size == (Vec2 {
            x: width as i64,
            y: height as i64,
        }),
{
}

} // verus!
