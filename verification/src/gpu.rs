//! Structural models of the GPU objects the viewer configures.
//!
//! The driver-side objects themselves (device, surface, compiled
//! pipelines) live outside the library; what is verified here is every
//! decision about them: which fields each descriptor carries, how binding
//! sets are laid out, and when a pipeline may be built at all.  The
//! windowing/GPU shell translates these models one-for-one into driver
//! calls.

use vstd::prelude::*;

verus! {

/// A surface or texture color format.  Only the formats the viewer can
/// meet are modelled: 8-bit-per-channel RGBA/BGRA, linear or sRGB.
#[derive(Clone, Copy, Debug, PartialEq, Eq, Structural)]
pub enum SurfaceFormat {
    Rgba8Unorm,
    Rgba8UnormSrgb,
    Bgra8Unorm,
    Bgra8UnormSrgb,
}

impl SurfaceFormat {
    /// The sRGB companion of a format: linear formats map to their sRGB
    /// variant, sRGB formats stay themselves.
    pub open spec fn srgb_suffix_spec(self) -> SurfaceFormat {
        match self {
            SurfaceFormat::Rgba8Unorm => SurfaceFormat::Rgba8UnormSrgb,
            SurfaceFormat::Bgra8Unorm => SurfaceFormat::Bgra8UnormSrgb,
            _ => self,
        }
    }

    /// Returns the sRGB companion format, used for the gamma-correct view
    /// of the presentable texture.
    pub fn add_srgb_suffix(self) -> (f: SurfaceFormat)
        ensures
            f == self.srgb_suffix_spec(),
    {
        match self {
            SurfaceFormat::Rgba8Unorm => SurfaceFormat::Rgba8UnormSrgb,
            SurfaceFormat::Bgra8Unorm => SurfaceFormat::Bgra8UnormSrgb,
            other => other,
        }
    }
}

/// The ways a texture may be used.  Modelled as one flag per use the
/// viewer needs.
#[derive(Clone, Copy, Debug, PartialEq, Eq, Structural)]
pub struct TextureUsages {
    pub render_attachment: bool,
    pub copy_dst: bool,
    pub texture_binding: bool,
}

/// Presentation scheduling for the surface.
#[derive(Clone, Copy, Debug, PartialEq, Eq, Structural)]
pub enum PresentMode {
    AutoVsync,
    AutoNoVsync,
    Fifo,
}

/// How the surface is composited with the rest of the desktop.
#[derive(Clone, Copy, Debug, PartialEq, Eq, Structural)]
pub enum CompositeAlphaMode {
    Auto,
    Opaque,
}

/// The full configuration handed to the surface, both at start-up and on
/// every resize.
#[derive(Clone, Debug)]
pub struct SurfaceConfig {
    pub usage: TextureUsages,
    pub format: SurfaceFormat,
    /// Extra formats views of the surface texture may take; the viewer
    /// requests exactly the sRGB companion of `format`.
    pub view_formats: Vec<SurfaceFormat>,
    pub alpha_mode: CompositeAlphaMode,
    pub width: u32,
    pub height: u32,
    pub desired_maximum_frame_latency: u32,
    pub present_mode: PresentMode,
}

/// How a sampler treats coordinates outside the texture.
#[derive(Clone, Copy, Debug, PartialEq, Eq, Structural)]
pub enum AddressMode {
    ClampToEdge,
    Repeat,
    ClampToBorder,
}

/// Texel filtering policy.
#[derive(Clone, Copy, Debug, PartialEq, Eq, Structural)]
pub enum FilterMode {
    Nearest,
    Linear,
}

/// Which shader stages see a binding.
#[derive(Clone, Copy, Debug, PartialEq, Eq, Structural)]
pub enum Visibility {
    VertexOnly,
    FragmentOnly,
    VertexAndFragment,
}

/// The kind of resource a binding slot carries.
#[derive(Clone, Copy, Debug, PartialEq, Eq, Structural)]
pub enum BindingKind {
    /// A uniform buffer (no dynamic offset, unconstrained size).
    UniformBuffer,
    /// A filtering sampler.
    FilteringSampler,
    /// A two-dimensional, filterable float texture.
    FloatTexture2d,
}

/// One slot of a binding-set layout.
#[derive(Clone, Copy, Debug, PartialEq, Eq, Structural)]
pub struct BindingEntry {
    pub binding: u32,
    pub visibility: Visibility,
    pub kind: BindingKind,
}

/// The layout of one binding set: its slots in declaration order.
#[derive(Clone, Debug)]
pub struct BindGroupLayout {
    pub entries: Vec<BindingEntry>,
}

impl BindGroupLayout {
    /// Two layouts match when they declare the same slots in the same
    /// order.
    pub open spec fn matches(self, other: BindGroupLayout) -> bool {
        self.entries@ == other.entries@
    }

    /// Structural comparison of two layouts.
    pub fn same_layout(&self, other: &BindGroupLayout) -> (r: bool)
        ensures
            r == self.matches(*other),
    {
        if self.entries.len() != other.entries.len() {
            proof {
                assert(self.entries@.len() != other.entries@.len());
            }
            return false;
        }
        let n = self.entries.len();
        let mut i: usize = 0;
        while i < n
            invariant
                n == self.entries@.len(),
                n == other.entries@.len(),
                i <= n,
                forall|j: int| 0 <= j < i ==> self.entries@[j] == other.entries@[j],
            decreases n - i,
        {
            if self.entries[i] != other.entries[i] {
                return false;
            }
            i += 1;
        }
        proof {
            assert(self.entries@ =~= other.entries@);
        }
        true
    }
}

/// Two ordered families of binding-set layouts match set for set.
pub open spec fn groups_match(a: Seq<BindGroupLayout>, b: Seq<BindGroupLayout>) -> bool {
    &&& a.len() == b.len()
    &&& forall|i: int| 0 <= i < a.len() ==> #[trigger] a[i].matches(b[i])
}

/// Structural comparison of two ordered families of binding-set layouts.
pub fn same_groups(a: &Vec<BindGroupLayout>, b: &Vec<BindGroupLayout>) -> (r: bool)
    ensures
        r == groups_match(a@, b@),
{
    if a.len() != b.len() {
        return false;
    }
    let n = a.len();
    let mut i: usize = 0;
    while i < n
        invariant
            n == a@.len(),
            n == b@.len(),
            i <= n,
            forall|j: int| 0 <= j < i ==> #[trigger] a@[j].matches(b@[j]),
        decreases n - i,
    {
        if !a[i].same_layout(&b[i]) {
            return false;
        }
        i += 1;
    }
    true
}

/// A concrete resource bound into one slot of a binding set.
#[derive(Clone, Copy, Debug, PartialEq, Eq, Structural)]
pub enum BindingResource {
    /// A buffer of uniform data of the given byte size.
    Buffer { size_bytes: u64 },
    /// A sampler object.
    SamplerBinding,
    /// A view of a texture.
    TextureViewBinding,
}

impl BindingResource {
    /// Whether this resource fits a slot of the given kind.
    pub open spec fn fits(self, kind: BindingKind) -> bool {
        match (self, kind) {
            (BindingResource::Buffer { .. }, BindingKind::UniformBuffer) => true,
            (BindingResource::SamplerBinding, BindingKind::FilteringSampler) => true,
            (BindingResource::TextureViewBinding, BindingKind::FloatTexture2d) => true,
            _ => false,
        }
    }
}

/// A binding set: concrete resources filled into a layout, slot by slot.
#[derive(Clone, Debug)]
pub struct BindGroup {
    pub layout: BindGroupLayout,
    /// Resources in slot order; `resources[i]` fills `layout.entries[i]`.
    pub resources: Vec<BindingResource>,
}

impl BindGroup {
    /// A binding set is well formed when every slot of its layout is
    /// filled with a resource of the declared kind.
    pub open spec fn wf(self) -> bool {
        &&& self.resources@.len() == self.layout.entries@.len()
        &&& forall|i: int|
            0 <= i < self.resources@.len() ==> (#[trigger] self.resources@[i]).fits(
                self.layout.entries@[i].kind,
            )
    }
}

/// Primitive assembly for a pipeline.
#[derive(Clone, Copy, Debug, PartialEq, Eq, Structural)]
pub enum PrimitiveTopology {
    TriangleList,
    TriangleStrip,
}

/// A compiled, immutable description of one drawing pass: its binding-set
/// layouts in set order, its output color format and its topology.
#[derive(Clone, Debug)]
pub struct Pipeline {
    pub group_layouts: Vec<BindGroupLayout>,
    pub color_format: SurfaceFormat,
    pub topology: PrimitiveTopology,
}

/// Why building a pipeline was refused.
#[derive(Clone, Copy, Debug, PartialEq, Eq, Structural)]
pub enum PipelineError {
    /// The shader does not expose the vertex entry point.
    MissingVertexEntry,
    /// The shader does not expose the fragment entry point.
    MissingFragmentEntry,
    /// The shader's declared binding sets do not structurally match the
    /// pass's resource layouts.
    BindingSetMismatch,
}

/// What a shader program declares towards the pipeline: its binding-set
/// layouts in set order and whether the two required entry points exist.
#[derive(Clone, Debug)]
pub struct ShaderInterface {
    pub group_layouts: Vec<BindGroupLayout>,
    pub has_vertex_entry: bool,
    pub has_fragment_entry: bool,
}

impl ShaderInterface {
    /// A shader is accepted against a pass's layouts when both entry
    /// points exist and the binding sets match structurally.
    pub open spec fn accepted_against(self, pass_layouts: Seq<BindGroupLayout>) -> bool {
        &&& self.has_vertex_entry
        &&& self.has_fragment_entry
        &&& groups_match(self.group_layouts@, pass_layouts)
    }
}

/// An RGBA clear color with 8-bit channels.
#[derive(Clone, Copy, Debug, PartialEq, Eq, Structural)]
pub struct Color {
    pub r: u8,
    pub g: u8,
    pub b: u8,
    pub a: u8,
}

impl Color {
    /// Opaque black.
    pub open spec fn black_spec() -> Color {
        Color { r: 0, g: 0, b: 0, a: 255 }
    }

    /// Builds opaque black, the clear color of every pass.
    pub fn black() -> (c: Color)
        ensures
            c == Color::black_spec(),
    {
        Color { r: 0, g: 0, b: 0, a: 255 }
    }
}

/// The description of an immutable texture as created on the device.
#[derive(Clone, Copy, Debug, PartialEq, Eq, Structural)]
pub struct TextureDesc {
    pub format: SurfaceFormat,
    pub width: u32,
    pub height: u32,
    pub depth_or_array_layers: u32,
    pub mip_level_count: u32,
    pub sample_count: u32,
    pub usage: TextureUsages,
}

/// The description of a sampler.
#[derive(Clone, Copy, Debug, PartialEq, Eq, Structural)]
pub struct SamplerDesc {
    pub address_mode_u: AddressMode,
    pub address_mode_v: AddressMode,
    pub address_mode_w: AddressMode,
    pub mag_filter: FilterMode,
    pub min_filter: FilterMode,
    pub mipmap_filter: FilterMode,
}

/// The byte layout of a whole-texture upload.
#[derive(Clone, Copy, Debug, PartialEq, Eq, Structural)]
pub struct UploadLayout {
    pub offset: u64,
    pub bytes_per_row: u32,
    pub rows_per_image: u32,
}

} // verus!
