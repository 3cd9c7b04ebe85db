//! The composable render-pass capability.
//!
//! A conforming pass can build its pipeline for a given output color
//! format and record one frame's draw from the shared frame uniforms.
//! Passes are driven in registration order, which is the compositing
//! order.

use vstd::prelude::*;

use crate::gpu::{BindGroup, Color, Pipeline, PipelineError, ShaderInterface, SurfaceFormat};
use crate::maprender::Metadata;

verus! {

/// Everything one pass records for one frame: a single color render
/// pass that clears the target, binds the listed binding sets in index
/// order, binds the pipeline and issues one draw.  The shell replays
/// this against the shared command recorder.
#[derive(Clone, Debug)]
pub struct DrawCommand {
    /// The color the target is cleared to before drawing.
    pub clear_color: Color,
    /// Whether the drawn results are stored to the target.
    pub store: bool,
    /// The structural description of the pipeline to bind.
    pub pipeline: Pipeline,
    /// Binding sets in set-index order.
    pub bind_groups: Vec<BindGroup>,
    /// The frame's uniform payload, uploaded to the buffer bound at
    /// set 0.
    pub uniforms: Metadata,
    /// Number of vertices of the single draw.
    pub vertices: u32,
    /// Number of instances of the single draw.
    pub instances: u32,
}

/// The render-pass capability shared by all color passes: build a
/// pipeline for the session's surface format, and record one frame's
/// draw given the frame uniforms.
pub trait ColorRenderPass {
    /// The pass's own well-formedness invariant, established at
    /// construction and preserved by every frame.
    spec fn wf(&self) -> bool;

    /// Compiles the pass's shader program against the given output
    /// color format and binds the pass's resource layouts in fixed set
    /// order.
    fn create_pipeline(shader: &ShaderInterface, color_format: SurfaceFormat) -> Result<
        Pipeline,
        PipelineError,
    >;

    /// Records one frame's draw from the shared frame uniforms.
    fn render(&mut self, ued: Metadata) -> (cmd: DrawCommand)
        requires
            old(self).wf(),
        ensures
            final(self).wf(),
    ;
}

} // verus!
