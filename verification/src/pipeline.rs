//! The pipeline description: the immutable, compiled description of the
//! task, mesh and fragment shader stages and the fixed-function state used to
//! produce one render pass's output. It is built once at initialization and
//! never mutated; its output color target format must always equal the
//! surface's configured format.

use vstd::prelude::*;

verus! {

/// How triangles are assembled from the stream the mesh stage emits.
#[derive(Clone, Copy, PartialEq, Eq, Structural, Debug)]
pub enum Topology {
    PointList,
    LineList,
    LineStrip,
    TriangleList,
    TriangleStrip,
}

/// Which winding order marks a triangle's front face.
#[derive(Clone, Copy, PartialEq, Eq, Structural, Debug)]
pub enum FrontFace {
    Ccw,
    Cw,
}

/// Which face of a triangle is culled, if any.
#[derive(Clone, Copy, PartialEq, Eq, Structural, Debug)]
pub enum Face {
    Front,
    Back,
}

/// How a fragment's output is combined with the color already in the target.
#[derive(Clone, Copy, PartialEq, Eq, Structural, Debug)]
pub enum Blend {
    /// The fragment's output replaces the target: blending disabled, opaque.
    Replace,
    AlphaBlending,
}

/// The compiled pipeline's description, as far as this library's logic reads
/// it. The shader module itself is an opaque backend object held by the
/// platform adapter; the library fixes the stages, the output target and the
/// fixed-function state.
#[derive(Clone, Copy, PartialEq, Eq, Structural, Debug)]
pub struct PipelineDesc {
    /// The output color target's pixel format, in the backend's numbering.
    pub target_format: u32,
    /// Whether a task stage is bound.
    pub has_task_stage: bool,
    /// Whether a mesh stage is bound.
    pub has_mesh_stage: bool,
    /// Whether a fragment stage is bound.
    pub has_fragment_stage: bool,
    /// How many bind group layouts the pipeline layout holds; zero means no
    /// bound resources at all.
    pub bind_group_layouts: u32,
    pub topology: Topology,
    pub front_face: FrontFace,
    pub cull_mode: Option<Face>,
    pub blend: Blend,
    /// Whether a depth/stencil attachment is declared.
    pub has_depth_stencil: bool,
    /// Samples per pixel; one means no multisampling.
    pub sample_count: u32,
}

/// The one pipeline this library builds: task, mesh and fragment stages, an
/// empty pipeline layout, the given output format with blending disabled,
/// triangle-list assembly with back-face culling under a counter-clockwise
/// front winding, no depth/stencil, single-sample.
pub open spec fn spec_mesh_pipeline(format: u32) -> PipelineDesc {
    PipelineDesc {
        target_format: format,
        has_task_stage: true,
        has_mesh_stage: true,
        has_fragment_stage: true,
        bind_group_layouts: 0,
        topology: Topology::TriangleList,
        front_face: FrontFace::Ccw,
        cull_mode: Some(Face::Back),
        blend: Blend::Replace,
        has_depth_stencil: false,
        sample_count: 1,
    }
}

/// Build the pipeline description for a surface of the given format. The
/// output target format always equals the format handed in.
pub fn build_pipeline(format: u32) -> (p: PipelineDesc)
    ensures
        p == spec_mesh_pipeline(format),
        p.target_format == format,
{
    PipelineDesc {
        target_format: format,
        has_task_stage: true,
        has_mesh_stage: true,
        has_fragment_stage: true,
        bind_group_layouts: 0,
        topology: Topology::TriangleList,
        front_face: FrontFace::Ccw,
        cull_mode: Some(Face::Back),
        blend: Blend::Replace,
        has_depth_stencil: false,
        sample_count: 1,
    }
}

} // verus!
