//! The frame renderer: the state machine that keeps the presentation surface
//! sized correctly and decides what one frame consists of. The renderer owns
//! the surface configuration and the pipeline description; the opaque backend
//! handles (surface, device, queue, compiled pipeline) live with the platform
//! adapter, which executes the decisions made here.
//!
//! `resize` is the only operation that mutates the configuration, and it
//! refuses a zero-area size. `render` decides the exact step sequence of one
//! frame: acquire the next presentable image, record one render pass that
//! clears to near-black, binds the pipeline and issues one task/mesh draw,
//! then submit and finally present — or skip the frame entirely when the
//! configuration has zero area, so that a minimized window never crashes.

use vstd::prelude::*;
use crate::config::SurfaceConfig;
use crate::pipeline::PipelineDesc;

verus! {

/// The color a render pass clears its target to, each channel in thousandths
/// (the backend takes the channel as a fraction of one; the platform adapter
/// divides by one thousand when converting).
#[derive(Clone, Copy, PartialEq, Eq, Structural, Debug)]
pub struct ClearColor {
    pub red_milli: u32,
    pub green_milli: u32,
    pub blue_milli: u32,
    pub alpha_milli: u32,
}

/// The fixed near-black clear color: one percent of full intensity in each
/// color channel, fully opaque.
pub open spec fn spec_near_black() -> ClearColor {
    ClearColor { red_milli: 10, green_milli: 10, blue_milli: 10, alpha_milli: 1000 }
}

/// The fixed near-black clear color, as a value the platform adapter can
/// convert for the backend.
pub fn near_black() -> (c: ClearColor)
    ensures
        c == spec_near_black(),
{
    ClearColor { red_milli: 10, green_milli: 10, blue_milli: 10, alpha_milli: 1000 }
}

/// One step of a frame, in the order the platform adapter must perform them.
#[derive(Clone, Copy, PartialEq, Eq, Structural, Debug)]
pub enum RenderStep {
    /// Acquire the next presentable image from the surface.
    AcquireFrame,
    /// Create a view of the acquired image usable as a color attachment.
    CreateView,
    /// Begin the single render pass, clearing the attachment to this color.
    BeginPass(ClearColor),
    /// Bind the compiled mesh pipeline.
    BindPipeline,
    /// Issue the single mesh-shading draw with the given work-group counts.
    DrawMeshTasks(u32, u32, u32),
    /// End the render pass.
    EndPass,
    /// Submit the recorded commands to the queue.
    Submit,
    /// Present the acquired image.
    Present,
}

/// The step sequence of one full frame: exactly one acquire, one render pass
/// holding one draw with a fixed 1×1×1 work-group count, one submission and
/// one presentation, submission before presentation.
pub open spec fn spec_frame_steps() -> Seq<RenderStep> {
    seq![
        RenderStep::AcquireFrame,
        RenderStep::CreateView,
        RenderStep::BeginPass(spec_near_black()),
        RenderStep::BindPipeline,
        RenderStep::DrawMeshTasks(1, 1, 1),
        RenderStep::EndPass,
        RenderStep::Submit,
        RenderStep::Present,
    ]
}

/// The frame renderer. Its two states are `Configured` (a value of this type
/// exists and is well-formed) and `Destroyed` (the value has been dropped);
/// no operation leads back from the latter.
#[derive(Clone, Copy, PartialEq, Eq, Structural, Debug)]
pub struct Renderer {
    pub config: SurfaceConfig,
    pub pipeline: PipelineDesc,
}

impl Renderer {
    /// Well-formedness: the pipeline's declared output format equals the
    /// surface's configured format. Every operation preserves this; were the
    /// two ever to differ the pipeline would be stale, and recovering from
    /// that would require full reinitialization.
    pub open spec fn wf(self) -> bool {
        self.pipeline.target_format == self.config.format
    }

    /// What `resize` leaves behind: a zero-area request changes nothing;
    /// otherwise only the configured width and height change.
    pub open spec fn spec_resize(self, width: u32, height: u32) -> Renderer {
        if width == 0 || height == 0 {
            self
        } else {
            Renderer {
                config: SurfaceConfig { width, height, ..self.config },
                ..self
            }
        }
    }

    /// What `render` decides: a full frame when the configuration has
    /// positive area, no steps at all (a skipped frame) when it does not.
    pub open spec fn spec_render_plan(self) -> Seq<RenderStep> {
        if self.config.width > 0 && self.config.height > 0 {
            spec_frame_steps()
        } else {
            Seq::<RenderStep>::empty()
        }
    }

    /// Assemble a renderer from a surface configuration and a pipeline
    /// description whose output format matches it.
    pub fn new(config: SurfaceConfig, pipeline: PipelineDesc) -> (r: Renderer)
        requires
            pipeline.target_format == config.format,
        ensures
            r.config == config,
            r.pipeline == pipeline,
            r.wf(),
    {
        Renderer { config, pipeline }
    }

    /// The resize policy. A request with a zero dimension (a minimized or
    /// transiently zero-sized window) is deliberately absorbed: the surface
    /// keeps its last valid configuration and the backend is not asked to
    /// reconfigure. Otherwise the stored width and height are updated and
    /// the platform adapter must reconfigure the surface, which is what the
    /// returned flag tells it.
    pub fn resize(&mut self, width: u32, height: u32) -> (reconfigure: bool)
        ensures
            *final(self) == old(self).spec_resize(width, height),
            reconfigure == (width > 0 && height > 0),
            final(self).wf() == old(self).wf(),
    {
        if width == 0 || height == 0 {
            return false;
        }
        self.config.width = width;
        self.config.height = height;
        true
    }

    /// Decide one frame. Returns the exact steps the platform adapter must
    /// perform, in order; an empty plan means the frame is skipped (the one
    /// case is a zero-area configuration). The renderer itself is left
    /// unchanged: no cross-frame state is retained.
    pub fn render(&mut self) -> (plan: Vec<RenderStep>)
        requires
            old(self).wf(),
        ensures
            *final(self) == *old(self),
            plan@ == old(self).spec_render_plan(),
    {
        let mut plan: Vec<RenderStep> = Vec::new();
        if self.config.width == 0 || self.config.height == 0 {
            proof {
                assert(plan@ =~= self.spec_render_plan());
            }
            return plan;
        }
        plan.push(RenderStep::AcquireFrame);
        plan.push(RenderStep::CreateView);
        plan.push(RenderStep::BeginPass(near_black()));
        plan.push(RenderStep::BindPipeline);
        plan.push(RenderStep::DrawMeshTasks(1, 1, 1));
        plan.push(RenderStep::EndPass);
        plan.push(RenderStep::Submit);
        plan.push(RenderStep::Present);
        proof {
            assert(plan@ =~= spec_frame_steps());
        }
        plan
    }
}

} // verus!
