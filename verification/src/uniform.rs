//! The per-frame uniform resource.
//!
//! A `UniformBuffer` wraps one frame's uniform payload as a GPU-visible
//! buffer description plus the binding set exposing it at slot 0.  It is
//! rebuilt from fresh contents every frame; recreation allocates each
//! time, which is a documented performance concern, not a correctness
//! one.

use vstd::prelude::*;

use crate::gpu::{BindGroup, BindGroupLayout, BindingEntry, BindingKind, BindingResource,
    Visibility};
use crate::maprender::Metadata;

verus! {

/// Byte size of the uniform payload as the shader sees it: eight
/// four-byte fields (time, zoom, and three two-component vectors), in
/// declaration order with no padding.  Reordering the fields of
/// [`Metadata`] would invalidate this shader contract.
pub const METADATA_BYTES: u64 = 32;

/// The single slot of the frame-uniform binding set: one uniform buffer
/// at binding 0, visible to both shader stages.
pub open spec fn uniform_layout_entries() -> Seq<BindingEntry> {
    seq![
        BindingEntry {
            binding: 0,
            visibility: Visibility::VertexAndFragment,
            kind: BindingKind::UniformBuffer,
        },
    ]
}

/// One GPU buffer sized to the uniform payload, plus its binding
/// descriptor at slot 0.
#[derive(Clone, Debug)]
pub struct UniformBuffer {
    pub contents: Metadata,
    pub size_bytes: u64,
}

impl UniformBuffer {
    /// The layout of the binding set a `UniformBuffer` is exposed
    /// through.
    pub fn bind_group_layout() -> (l: BindGroupLayout)
        ensures
            l.entries@ == uniform_layout_entries(),
    {
        let l = BindGroupLayout {
            entries: vec![
                BindingEntry {
                    binding: 0,
                    visibility: Visibility::VertexAndFragment,
                    kind: BindingKind::UniformBuffer,
                },
            ],
        };
        proof {
            assert(l.entries@ =~= uniform_layout_entries());
        }
        l
    }

    /// Wraps one frame's payload as a buffer description.
    pub fn new(contents: Metadata) -> (u: UniformBuffer)
        ensures
            u.contents == contents,
            u.size_bytes == METADATA_BYTES,
    {
        UniformBuffer { contents, size_bytes: METADATA_BYTES }
    }

    /// The binding set exposing this buffer at slot 0.
    pub fn bind_group(&self) -> (g: BindGroup)
        ensures
            g.wf(),
            g.layout.entries@ == uniform_layout_entries(),
            g.resources@ == seq![BindingResource::Buffer { size_bytes: self.size_bytes }],
    {
        let g = BindGroup {
            layout: UniformBuffer::bind_group_layout(),
            resources: vec![BindingResource::Buffer { size_bytes: self.size_bytes }],
        };
        proof {
            assert(g.resources@ =~= seq![
                BindingResource::Buffer { size_bytes: self.size_bytes },
            ]);
        }
        g
    }
}

} // verus!
