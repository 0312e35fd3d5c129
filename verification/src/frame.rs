//! One frame of rendering, as a value.
//!
//! The renderer does not talk to the graphics backend itself. Given the
//! outcome of acquiring the next presentable image, it either produces the
//! frame's single command buffer — a fixed sequence of render commands the
//! unverified shell replays against the backend verbatim, then submits once
//! and presents — or propagates the acquisition failure unchanged. The
//! module also classifies acquisition failures: out-of-memory is fatal, a
//! lost or outdated surface is transient, everything else is skipped.
use crate::color::{clear_color, spec_clear_color, Rgba};
use crate::geometry::spec_indices;
use crate::pipeline::{is_quad_pipeline, pipeline_desc, IndexFormat, PipelineDesc};
use crate::surface::{is_initial_config, AlphaMode, SurfaceConfig, SurfaceFormat};
use vstd::prelude::*;

verus! {

/// Why acquiring the next presentable image failed; mirrors the backend's
/// surface error taxonomy as plain values.
#[derive(Clone, Copy, Debug, PartialEq, Eq, Structural)]
pub enum AcquireError {
    /// The acquisition timed out; the frame can be retried.
    Timeout,
    /// The surface no longer matches the window and must be reconfigured.
    Outdated,
    /// The swapchain was lost and must be recreated.
    Lost,
    /// The backend ran out of memory; unrecoverable.
    OutOfMemory,
    /// Any other acquisition failure.
    Other,
}

/// An acquisition failure that must terminate the application; every other
/// failure — a lost or outdated surface, a timeout, anything else — only
/// skips the frame.
pub open spec fn is_fatal(e: AcquireError) -> bool {
    e is OutOfMemory
}

/// Whether the store operation of a render pass keeps its result.
#[derive(Clone, Copy, Debug, PartialEq, Eq, Structural)]
pub enum StoreOp {
    Store,
    Discard,
}

/// One command recorded into the frame's command buffer.
#[derive(Clone, Copy, Debug, PartialEq, Eq, Structural)]
pub enum RenderCommand {
    /// Begin a render pass with one color attachment whose load operation
    /// clears to `clear` and whose store operation is `store`.
    BeginRenderPass { clear: Rgba, store: StoreOp },
    /// Bind the fixed render pipeline.
    SetPipeline,
    /// Bind the vertex buffer at the given slot.
    SetVertexBuffer { slot: u32 },
    /// Bind the index buffer, whose entries have the given encoding.
    SetIndexBuffer { format: IndexFormat },
    /// Draw `index_count` indices for `instance_count` instances.
    DrawIndexed { index_count: u32, instance_count: u32 },
    /// End the render pass.
    EndRenderPass,
}

/// The command sequence of one frame that draws `n` indices: one render pass
/// that clears to the fixed color and keeps its result, the pipeline and both
/// geometry buffers bound, and one indexed draw of a single instance.
pub open spec fn spec_frame_commands(n: u32) -> Seq<RenderCommand> {
    seq![
        RenderCommand::BeginRenderPass { clear: spec_clear_color(), store: StoreOp::Store },
        RenderCommand::SetPipeline,
        RenderCommand::SetVertexBuffer { slot: 0 },
        RenderCommand::SetIndexBuffer { format: IndexFormat::Uint16 },
        RenderCommand::DrawIndexed { index_count: n, instance_count: 1 },
        RenderCommand::EndRenderPass,
    ]
}

/// How many render passes a command sequence begins.
pub open spec fn pass_count(s: Seq<RenderCommand>) -> nat
    decreases s.len(),
{
    if s.len() == 0 {
        0
    } else {
        pass_count(s.drop_last()) + if s.last() is BeginRenderPass {
            1nat
        } else {
            0nat
        }
    }
}

/// How many draw calls a command sequence issues.
pub open spec fn draw_count(s: Seq<RenderCommand>) -> nat
    decreases s.len(),
{
    if s.len() == 0 {
        0
    } else {
        draw_count(s.drop_last()) + if s.last() is DrawIndexed {
            1nat
        } else {
            0nat
        }
    }
}

/// The single command buffer of one frame, ready for the shell to replay,
/// submit once, and present.
#[derive(Clone, Debug, PartialEq, Eq)]
pub struct FramePlan {
    pub commands: Vec<RenderCommand>,
}

/// The renderer's verified state: the surface configuration, the pipeline
/// description, and how many indices each frame draws.
#[derive(Clone, Debug, PartialEq, Eq)]
pub struct Renderer {
    pub config: SurfaceConfig,
    pub pipeline: PipelineDesc,
    pub num_indices: u32,
}

impl Renderer {
    /// The renderer is consistent: a presentable configuration, the pipeline
    /// targeting the surface's own format, and the whole index list drawn.
    pub open spec fn wf(self) -> bool {
        &&& self.config.wf()
        &&& is_quad_pipeline(self.pipeline, self.config.format)
        &&& self.num_indices == spec_indices().len()
    }

    /// Builds the renderer for a window of the given pixel dimensions, from
    /// the capability lists the backend reported for the surface.
    pub fn new(
        width: u32,
        height: u32,
        formats: &Vec<SurfaceFormat>,
        alpha_modes: &Vec<AlphaMode>,
    ) -> (r: Renderer)
        requires
            width > 0,
            height > 0,
            formats@.len() > 0,
            alpha_modes@.len() > 0,
        ensures
            r.wf(),
            is_initial_config(r.config, width, height, formats@, alpha_modes@),
    {
        let config = SurfaceConfig::new(width, height, formats, alpha_modes);
        let pipeline = pipeline_desc(config.format);
        Renderer { config, pipeline, num_indices: 6 }
    }

    /// Applies a resize report to the stored configuration; nothing else of
    /// the renderer changes. Returns whether the surface must be
    /// reconfigured: true exactly when both dimensions are non-zero.
    pub fn resize(&mut self, width: u32, height: u32) -> (reconfigure: bool)
        ensures
            final(self).config == old(self).config.spec_resize(width, height),
            final(self).pipeline == old(self).pipeline,
            final(self).num_indices == old(self).num_indices,
            reconfigure == (width > 0 && height > 0),
            old(self).wf() ==> final(self).wf(),
    {
        self.config.resize(width, height)
    }

    /// One invocation of the renderer, given the outcome of acquiring the
    /// next presentable image. On success it returns the frame's single
    /// command buffer — the fixed sequence drawing all stored indices — and
    /// on failure it propagates the error without modification, recording
    /// nothing: either the full sequence is produced, or no command is.
    pub fn plan_frame(&self, acquired: Result<(), AcquireError>) -> (r: Result<
        FramePlan,
        AcquireError,
    >)
        ensures
            acquired is Ok ==> (r matches Ok(p) && p.commands@ == spec_frame_commands(
                self.num_indices,
            )),
            acquired matches Err(e) ==> r == Result::<FramePlan, AcquireError>::Err(e),
    {
        match acquired {
            Ok(_) => {
                let mut commands: Vec<RenderCommand> = Vec::new();
                commands.push(
                    RenderCommand::BeginRenderPass { clear: clear_color(), store: StoreOp::Store },
                );
                commands.push(RenderCommand::SetPipeline);
                commands.push(RenderCommand::SetVertexBuffer { slot: 0 });
                commands.push(RenderCommand::SetIndexBuffer { format: IndexFormat::Uint16 });
                commands.push(
                    RenderCommand::DrawIndexed {
                        index_count: self.num_indices,
                        instance_count: 1,
                    },
                );
                commands.push(RenderCommand::EndRenderPass);
                proof {
                    assert(commands@ =~= spec_frame_commands(self.num_indices));
                }
                Ok(FramePlan { commands })
            },
            Err(e) => Err(e),
        }
    }
}

/// One frame is exactly one render pass with exactly one draw call: the
/// command buffer of a successful frame begins one pass, whose load
/// operation clears and whose store operation keeps the result, and issues
/// one indexed draw of all `n` indices over a single instance.
pub proof fn lemma_frame_shape(n: u32)
    ensures
        pass_count(spec_frame_commands(n)) == 1,
        draw_count(spec_frame_commands(n)) == 1,
        spec_frame_commands(n)[0] == (RenderCommand::BeginRenderPass {
            clear: spec_clear_color(),
            store: StoreOp::Store,
        }),
        spec_frame_commands(n)[4] == (RenderCommand::DrawIndexed {
            index_count: n,
            instance_count: 1,
        }),
{
    let s = spec_frame_commands(n);
    assert(s.len() == 6);
    let s5 = s.drop_last();
    let s4 = s5.drop_last();
    let s3 = s4.drop_last();
    let s2 = s3.drop_last();
    let s1 = s2.drop_last();
    let s0 = s1.drop_last();
    assert(s.last() == s[5]);
    assert(s5.last() == s[4]);
    assert(s4.last() == s[3]);
    assert(s3.last() == s[2]);
    assert(s2.last() == s[1]);
    assert(s1.last() == s[0]);
    assert(s0.len() == 0);
    assert(pass_count(s0) == 0);
    assert(pass_count(s1) == 1);
    assert(pass_count(s2) == 1);
    assert(pass_count(s3) == 1);
    assert(pass_count(s4) == 1);
    assert(pass_count(s5) == 1);
    assert(pass_count(s) == 1);
    assert(draw_count(s0) == 0);
    assert(draw_count(s1) == 0);
    assert(draw_count(s2) == 0);
    assert(draw_count(s3) == 0);
    assert(draw_count(s4) == 0);
    assert(draw_count(s5) == 1);
    assert(draw_count(s) == 1);
}

/// The clear color is invariant across frames: whatever two frames draw,
/// both clear to the same fixed color.
pub proof fn lemma_clear_color_invariant(n1: u32, n2: u32)
    ensures
        spec_frame_commands(n1)[0] == spec_frame_commands(n2)[0],
        spec_frame_commands(n1)[0] == (RenderCommand::BeginRenderPass {
            clear: spec_clear_color(),
            store: StoreOp::Store,
        }),
{
}

} // verus!
