//! The map color pass: a full-screen textured quad under pan and zoom.
//!
//! The pass owns a pipeline description, the sampler/texture binding set
//! for the map image, and a per-frame rebuilt uniform resource.  Building
//! the pipeline checks, binding set for binding set, that the shader
//! declares exactly the layouts the pass binds; a mismatch is a
//! construction error, never a silently wrong draw.

use vstd::prelude::*;

use crate::geom::Vec2;
use crate::gpu::{AddressMode, BindGroup, BindGroupLayout, BindingEntry, BindingKind,
    BindingResource, Color, FilterMode, Pipeline, PipelineError, PrimitiveTopology,
    SamplerDesc, ShaderInterface, SurfaceFormat, TextureDesc, TextureUsages, UploadLayout,
    Visibility};
use crate::renderpass::{ColorRenderPass, DrawCommand};
use crate::uniform::{uniform_layout_entries, UniformBuffer, METADATA_BYTES};

verus! {

/// The zoom factor is carried in millionths: `1_000_000` is 1.0x.
pub const ZOOM_UNIT: i64 = 1_000_000;

/// Lowest zoom factor, 0.1x.
pub const ZOOM_MIN: i64 = 100_000;

/// Highest zoom factor, 10.0x.
pub const ZOOM_MAX: i64 = 10_000_000;

/// The per-frame uniform payload, rebuilt every frame.
///
/// Field order is the shader contract: the shader reads elapsed time,
/// zoom, map translation, window size and pointer position in exactly
/// this order (see [`METADATA_BYTES`](crate::uniform::METADATA_BYTES)).
/// Times are microseconds since session start; lengths are pixels;
/// `mouse_pos` is in render space (origin bottom-left).
#[derive(Clone, Copy, Debug, PartialEq, Eq, Structural)]
pub struct Metadata {
    pub time_micros: u64,
    pub map_zoom: i64,
    pub map_translation: Vec2,
    pub window_size: Vec2,
    pub mouse_pos: Vec2,
}

impl Metadata {
    /// The frame-uniform invariant: the zoom factor stays within
    /// [0.1x, 10x].
    pub open spec fn wf(self) -> bool {
        ZOOM_MIN <= self.map_zoom <= ZOOM_MAX
    }
}

/// The two slots of the map pass's sampler binding set: a filtering
/// sampler at binding 0 and the map texture at binding 1, both visible
/// to the fragment stage only.
pub open spec fn sampler_layout_entries() -> Seq<BindingEntry> {
    seq![
        BindingEntry {
            binding: 0,
            visibility: Visibility::FragmentOnly,
            kind: BindingKind::FilteringSampler,
        },
        BindingEntry {
            binding: 1,
            visibility: Visibility::FragmentOnly,
            kind: BindingKind::FloatTexture2d,
        },
    ]
}

/// The map image uploaded to an immutable GPU texture, the fixed
/// sampler policy, and the binding set exposing both to the fragment
/// stage.  Created once per pass; never mutated.
#[derive(Clone, Debug)]
pub struct SamplerData {
    pub texture: TextureDesc,
    pub sampler: SamplerDesc,
    pub bind_group: BindGroup,
}

impl SamplerData {
    /// What a well-formed sampler resource looks like for a `width` by
    /// `height` map image.
    pub open spec fn wf_for(self, width: u32, height: u32) -> bool {
        &&& self.texture == (TextureDesc {
            format: SurfaceFormat::Rgba8UnormSrgb,
            width,
            height,
            depth_or_array_layers: 1,
            mip_level_count: 1,
            sample_count: 1,
            usage: TextureUsages {
                render_attachment: false,
                copy_dst: true,
                texture_binding: true,
            },
        })
        &&& self.sampler == (SamplerDesc {
            address_mode_u: AddressMode::ClampToBorder,
            address_mode_v: AddressMode::ClampToBorder,
            address_mode_w: AddressMode::ClampToBorder,
            mag_filter: FilterMode::Linear,
            min_filter: FilterMode::Nearest,
            mipmap_filter: FilterMode::Nearest,
        })
        &&& self.bind_group.layout.entries@ == sampler_layout_entries()
        &&& self.bind_group.resources@ == seq![
            BindingResource::SamplerBinding,
            BindingResource::TextureViewBinding,
        ]
    }

    /// A sampler resource is well formed for the image its texture
    /// holds.
    pub open spec fn wf(self) -> bool {
        self.wf_for(self.texture.width, self.texture.height)
    }

    /// The layout of the sampler binding set.
    pub fn bglayout() -> (l: BindGroupLayout)
        ensures
            l.entries@ == sampler_layout_entries(),
    {
        let l = BindGroupLayout {
            entries: vec![
                BindingEntry {
                    binding: 0,
                    visibility: Visibility::FragmentOnly,
                    kind: BindingKind::FilteringSampler,
                },
                BindingEntry {
                    binding: 1,
                    visibility: Visibility::FragmentOnly,
                    kind: BindingKind::FloatTexture2d,
                },
            ],
        };
        proof {
            assert(l.entries@ =~= sampler_layout_entries());
        }
        l
    }

    /// Builds the texture, sampler and binding-set descriptions for a
    /// decoded `width` by `height` RGBA map image, together with the
    /// byte layout of the one-time whole-image upload (tightly packed
    /// rows of four bytes per pixel).
    pub fn new(width: u32, height: u32) -> (r: (SamplerData, UploadLayout))
        requires
            4 * width <= u32::MAX,
        ensures
            r.0.wf_for(width, height),
            r.0.wf(),
            r.0.bind_group.wf(),
            r.1 == (UploadLayout {
                offset: 0,
                bytes_per_row: (4 * width) as u32,
                rows_per_image: height,
            }),
    {
        let texture = TextureDesc {
            format: SurfaceFormat::Rgba8UnormSrgb,
            width,
            height,
            depth_or_array_layers: 1,
            mip_level_count: 1,
            sample_count: 1,
            usage: TextureUsages {
                render_attachment: false,
                copy_dst: true,
                texture_binding: true,
            },
        };
        let upload = UploadLayout { offset: 0, bytes_per_row: 4 * width, rows_per_image: height };
        let sampler = SamplerDesc {
            address_mode_u: AddressMode::ClampToBorder,
            address_mode_v: AddressMode::ClampToBorder,
            address_mode_w: AddressMode::ClampToBorder,
            mag_filter: FilterMode::Linear,
            min_filter: FilterMode::Nearest,
            mipmap_filter: FilterMode::Nearest,
        };
        let bind_group = BindGroup {
            layout: SamplerData::bglayout(),
            resources: vec![
                BindingResource::SamplerBinding,
                BindingResource::TextureViewBinding,
            ],
        };
        proof {
            assert(bind_group.resources@ =~= seq![
                BindingResource::SamplerBinding,
                BindingResource::TextureViewBinding,
            ]);
        }
        (SamplerData { texture, sampler, bind_group }, upload)
    }
}

/// A shader is accepted by the map pass when it exposes both entry
/// points and declares exactly the pass's two binding sets: frame
/// uniforms at set 0, sampler and texture at set 1.
pub open spec fn map_shader_accepted(s: ShaderInterface) -> bool {
    &&& s.has_vertex_entry
    &&& s.has_fragment_entry
    &&& s.group_layouts@.len() == 2
    &&& s.group_layouts@[0].entries@ == uniform_layout_entries()
    &&& s.group_layouts@[1].entries@ == sampler_layout_entries()
}

/// What the map pass's pipeline looks like for an output color format.
pub open spec fn map_pipeline_for(p: Pipeline, color_format: SurfaceFormat) -> bool {
    &&& p.color_format == color_format
    &&& p.topology == PrimitiveTopology::TriangleStrip
    &&& p.group_layouts@.len() == 2
    &&& p.group_layouts@[0].entries@ == uniform_layout_entries()
    &&& p.group_layouts@[1].entries@ == sampler_layout_entries()
}

/// The draw the map pass records for one frame: one color-clearing pass
/// over the whole target, the frame uniforms at set 0, the sampler set
/// at set 1, and a four-vertex full-screen quad.
pub open spec fn map_draw_cmd(pass: MapRenderpass, ued: Metadata, cmd: DrawCommand) -> bool {
    &&& cmd.clear_color == Color::black_spec()
    &&& cmd.store
    &&& cmd.vertices == 4
    &&& cmd.instances == 1
    &&& cmd.uniforms == ued
    &&& map_pipeline_for(cmd.pipeline, pass.color_format)
    &&& cmd.bind_groups@.len() == 2
    &&& cmd.bind_groups@[0].layout.entries@ == uniform_layout_entries()
    &&& cmd.bind_groups@[0].resources@ == seq![
        BindingResource::Buffer { size_bytes: METADATA_BYTES },
    ]
    &&& cmd.bind_groups@[1].layout.entries@ == sampler_layout_entries()
    &&& cmd.bind_groups@[1].resources@ == seq![
        BindingResource::SamplerBinding,
        BindingResource::TextureViewBinding,
    ]
}

/// The pass drawing the pannable, zoomable map image.
#[derive(Clone, Debug)]
pub struct MapRenderpass {
    pub pipeline: Pipeline,
    pub uniforms: Option<UniformBuffer>,
    pub sampler_data: SamplerData,
    pub color_format: SurfaceFormat,
}

impl MapRenderpass {
    /// Builds the map pass for an output color format, a shader
    /// interface and a decoded `image_width` by `image_height` map
    /// image.  Fails fast, as a construction error, when the shader's
    /// declared binding layout does not structurally match the pass's
    /// resource layouts.  Also returns the byte layout of the one-time
    /// image upload.
    pub fn new(
        color_format: SurfaceFormat,
        shader: &ShaderInterface,
        image_width: u32,
        image_height: u32,
    ) -> (r: Result<(MapRenderpass, UploadLayout), PipelineError>)
        requires
            4 * image_width <= u32::MAX,
        ensures
            r is Ok <==> map_shader_accepted(*shader),
            r matches Ok(ok) ==> {
                &&& ok.0.wf()
                &&& ok.0.color_format == color_format
                &&& ok.0.uniforms is None
                &&& ok.0.sampler_data.wf_for(image_width, image_height)
                &&& ok.1 == (UploadLayout {
                    offset: 0,
                    bytes_per_row: (4 * image_width) as u32,
                    rows_per_image: image_height,
                })
            },
            r matches Err(e) ==> {
                &&& !shader.has_vertex_entry ==> e == PipelineError::MissingVertexEntry
                &&& shader.has_vertex_entry && !shader.has_fragment_entry ==> e
                    == PipelineError::MissingFragmentEntry
                &&& shader.has_vertex_entry && shader.has_fragment_entry ==> e
                    == PipelineError::BindingSetMismatch
            },
    {
        let (sampler_data, upload) = SamplerData::new(image_width, image_height);
        let pipeline = Self::create_pipeline(shader, color_format)?;
        Ok((MapRenderpass { pipeline, uniforms: None, sampler_data, color_format }, upload))
    }

    /// Rebuilds a fresh uniform resource for this frame's payload and
    /// hands back the two binding sets to bind, in set order.
    pub fn get_new_bind_groups(&mut self, uniforms: Metadata) -> (bgs: (BindGroup, BindGroup))
        requires
            old(self).wf(),
        ensures
            final(self).wf(),
            final(self).uniforms matches Some(u) && u.contents == uniforms && u.size_bytes
                == METADATA_BYTES,
            final(self).pipeline == old(self).pipeline,
            final(self).sampler_data == old(self).sampler_data,
            final(self).color_format == old(self).color_format,
            bgs.0.layout.entries@ == uniform_layout_entries(),
            bgs.0.resources@ == seq![BindingResource::Buffer { size_bytes: METADATA_BYTES }],
            bgs.1.layout.entries@ == sampler_layout_entries(),
            bgs.1.resources@ == seq![
                BindingResource::SamplerBinding,
                BindingResource::TextureViewBinding,
            ],
    {
        let fresh = UniformBuffer::new(uniforms);
        let uniform_group = fresh.bind_group();
        self.uniforms = Some(fresh);
        let sampler_group = BindGroup {
            layout: SamplerData::bglayout(),
            resources: vec![
                BindingResource::SamplerBinding,
                BindingResource::TextureViewBinding,
            ],
        };
        proof {
            assert(sampler_group.resources@ =~= seq![
                BindingResource::SamplerBinding,
                BindingResource::TextureViewBinding,
            ]);
        }
        (uniform_group, sampler_group)
    }

    /// Rebuilds the pipeline from freshly read shader text.  On failure
    /// the previous pipeline is retained.
    pub fn reload_shaders(&mut self, shader: &ShaderInterface) -> (r: Result<(), PipelineError>)
        requires
            old(self).wf(),
        ensures
            final(self).wf(),
            r is Ok <==> map_shader_accepted(*shader),
            final(self).uniforms == old(self).uniforms,
            final(self).sampler_data == old(self).sampler_data,
            final(self).color_format == old(self).color_format,
            r is Err ==> final(self).pipeline == old(self).pipeline,
            r matches Ok(_) ==> map_pipeline_for(final(self).pipeline, old(self).color_format),
    {
        match Self::create_pipeline(shader, self.color_format) {
            Ok(pipeline) => {
                self.pipeline = pipeline;
                Ok(())
            },
            Err(e) => Err(e),
        }
    }
}

impl ColorRenderPass for MapRenderpass {
    /// The pass invariant: the pipeline is the map pipeline for the
    /// pass's color format, the sampler resource is well formed, and
    /// the one-time upload arithmetic stays in range.
    open spec fn wf(&self) -> bool {
        &&& map_pipeline_for(self.pipeline, self.color_format)
        &&& self.sampler_data.wf()
        &&& 4 * self.sampler_data.texture.width <= u32::MAX
    }

    /// Accepts the shader against the pass's two binding-set layouts
    /// and fixed-function state: no vertex buffer, a four-vertex
    /// triangle strip synthesized from vertex indices.
    fn create_pipeline(shader: &ShaderInterface, color_format: SurfaceFormat) -> (r: Result<
        Pipeline,
        PipelineError,
    >)
        ensures
            r is Ok <==> map_shader_accepted(*shader),
            r matches Ok(p) ==> map_pipeline_for(p, color_format),
            r matches Err(e) ==> {
                &&& !shader.has_vertex_entry ==> e == PipelineError::MissingVertexEntry
                &&& shader.has_vertex_entry && !shader.has_fragment_entry ==> e
                    == PipelineError::MissingFragmentEntry
                &&& shader.has_vertex_entry && shader.has_fragment_entry ==> e
                    == PipelineError::BindingSetMismatch
            },
    {
        if !shader.has_vertex_entry {
            return Err(PipelineError::MissingVertexEntry);
        }
        if !shader.has_fragment_entry {
            return Err(PipelineError::MissingFragmentEntry);
        }
        let expected = vec![UniformBuffer::bind_group_layout(), SamplerData::bglayout()];
        proof {
            assert(expected@[0].entries@ == uniform_layout_entries());
            assert(expected@[1].entries@ == sampler_layout_entries());
            if crate::gpu::groups_match(shader.group_layouts@, expected@) {
                assert(shader.group_layouts@[0].matches(expected@[0]));
                assert(shader.group_layouts@[1].matches(expected@[1]));
            } else if shader.group_layouts@.len() == 2 && shader.group_layouts@[0].entries@
                == uniform_layout_entries() && shader.group_layouts@[1].entries@
                == sampler_layout_entries() {
                assert forall|i: int| 0 <= i < 2 implies #[trigger] shader.group_layouts@[i]
                    .matches(expected@[i]) by {
                    if i == 0 {
                        assert(shader.group_layouts@[0].entries@ == expected@[0].entries@);
                    } else {
                        assert(shader.group_layouts@[1].entries@ == expected@[1].entries@);
                    }
                }
                assert(false);
            }
        }
        if !crate::gpu::same_groups(&shader.group_layouts, &expected) {
            return Err(PipelineError::BindingSetMismatch);
        }
        Ok(
            Pipeline {
                group_layouts: expected,
                color_format,
                topology: PrimitiveTopology::TriangleStrip,
            },
        )
    }

    /// Records one frame of the map pass: clear the target to black,
    /// bind the fresh frame uniforms at set 0 and the sampler set at
    /// set 1, and draw the full-screen quad.
    fn render(&mut self, ued: Metadata) -> (cmd: DrawCommand)
        ensures
            map_draw_cmd(*old(self), ued, cmd),
            final(self).uniforms matches Some(u) && u.contents == ued,
            final(self).pipeline == old(self).pipeline,
            final(self).sampler_data == old(self).sampler_data,
            final(self).color_format == old(self).color_format,
    {
        let color_format = self.color_format;
        let (uniform_group, sampler_group) = self.get_new_bind_groups(ued);
        let pipeline = Pipeline {
            group_layouts: vec![UniformBuffer::bind_group_layout(), SamplerData::bglayout()],
            color_format,
            topology: PrimitiveTopology::TriangleStrip,
        };
        proof {
            assert(pipeline.group_layouts@[0].entries@ == uniform_layout_entries());
            assert(pipeline.group_layouts@[1].entries@ == sampler_layout_entries());
        }
        let cmd = DrawCommand {
            clear_color: Color::black(),
            store: true,
            pipeline,
            bind_groups: vec![uniform_group, sampler_group],
            uniforms: ued,
            vertices: 4,
            instances: 1,
        };
        proof {
            assert(cmd.bind_groups@.len() == 2);
        }
        cmd
    }
}

} // verus!
