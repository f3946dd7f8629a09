//! The library's laws: the guarantees that relate resize, render and
//! initialization, each stated over the same spec functions the operations'
//! own contracts use, and proved here once and for all inputs.

use vstd::prelude::*;
use crate::renderer::Renderer;
use crate::renderer::RenderStep;
use crate::renderer::spec_frame_steps;
use crate::init::spec_initialized;

verus! {

/// Whether `step` occurs exactly once in the plan `p`.
pub open spec fn spec_exactly_once(p: Seq<RenderStep>, step: RenderStep) -> bool {
    &&& exists|i: int| 0 <= i < p.len() && p[i] == step
    &&& forall|i: int, j: int|
        0 <= i < p.len() && 0 <= j < p.len() && p[i] == step && p[j] == step ==> i == j
}

/// Whether every submission in the plan `p` comes before every presentation.
pub open spec fn spec_submit_before_present(p: Seq<RenderStep>) -> bool {
    forall|i: int, j: int|
        0 <= i < p.len() && 0 <= j < p.len() && p[i] == RenderStep::Submit && p[j]
            == RenderStep::Present ==> i < j
}

/// For every window size with both dimensions positive, resizing to it and
/// then rendering succeeds: the configuration afterwards holds exactly the
/// requested width and height, the renderer is still well-formed, and the
/// render plan is the full frame, not a skipped one.
pub proof fn lemma_resize_then_render(r: Renderer, width: u32, height: u32)
    requires
        r.wf(),
        width > 0,
        height > 0,
    ensures
        ({
            let resized = r.spec_resize(width, height);
            &&& resized.config.width == width
            &&& resized.config.height == height
            &&& resized.wf()
            &&& resized.spec_render_plan() == spec_frame_steps()
            &&& resized.spec_render_plan().len() > 0
        }),
{
}

/// A resize with a zero dimension is an absorbed no-op: the prior valid
/// configuration, and the whole renderer with it, is left unchanged.
pub proof fn lemma_zero_resize_unchanged(r: Renderer, width: u32, height: u32)
    requires
        width == 0 || height == 0,
    ensures
        r.spec_resize(width, height) == r,
{
}

/// The pipeline's output color target format equals the surface's configured
/// format immediately after initialization.
pub proof fn lemma_format_matches_at_init(format: u32, width: u32, height: u32)
    ensures
        spec_initialized(format, width, height).wf(),
        spec_initialized(format, width, height).config.format == format,
        spec_initialized(format, width, height).pipeline.target_format == format,
{
}

/// A resize, whatever size it asks for, never changes the configured format
/// nor the pipeline, so the pipeline's output format still equals the
/// surface's configured format after it.
pub proof fn lemma_format_stable_under_resize(r: Renderer, width: u32, height: u32)
    requires
        r.wf(),
    ensures
        r.spec_resize(width, height).wf(),
        r.spec_resize(width, height).config.format == r.config.format,
        r.spec_resize(width, height).pipeline == r.pipeline,
{
}

/// Two consecutive renders without an intervening resize both succeed and
/// each independently performs one full frame: `render` leaves the renderer
/// unchanged, so both calls decide this same plan, and the plan acquires,
/// submits and presents exactly once each — no frame skipping, no
/// double-acquire — with the submission before the presentation.
pub proof fn lemma_two_renders_one_frame_each(r: Renderer)
    requires
        r.wf(),
        r.config.width > 0,
        r.config.height > 0,
    ensures
        ({
            let p = r.spec_render_plan();
            &&& p == spec_frame_steps()
            &&& spec_exactly_once(p, RenderStep::AcquireFrame)
            &&& spec_exactly_once(p, RenderStep::Submit)
            &&& spec_exactly_once(p, RenderStep::Present)
            &&& spec_submit_before_present(p)
        }),
{
    let p = r.spec_render_plan();
    assert(p[0] == RenderStep::AcquireFrame);
    assert(p[6] == RenderStep::Submit);
    assert(p[7] == RenderStep::Present);
}

} // verus!
