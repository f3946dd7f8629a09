//! Initialization: produce a ready-to-render frame renderer from what the
//! graphics backend reports for a window. The platform adapter performs the
//! backend handshake in two phases — it dispatches the asynchronous adapter
//! enumeration and device request, then blocks until the backend responds —
//! and hands the outcome here as plain values. This module makes the
//! all-or-nothing decision: either every step succeeded and a well-formed
//! renderer comes back, or initialization failed at a named step and the
//! process must terminate with that step's diagnostic. No partial or
//! degraded construction path exists.

use vstd::prelude::*;
use crate::adapter::AdapterCaps;
use crate::adapter::spec_qualifies;
use crate::adapter::select_adapter;
use crate::config::spec_initial_config;
use crate::config::initial_config;
use crate::pipeline::PipelineDesc;
use crate::pipeline::spec_mesh_pipeline;
use crate::pipeline::build_pipeline;
use crate::renderer::Renderer;

verus! {

/// Why initialization failed. Each failure is fatal: there is no fallback
/// rendering path, so the process terminates with the step's diagnostic.
#[derive(Clone, Copy, PartialEq, Eq, Structural, Debug)]
pub enum InitError {
    /// No enumerated adapter offers mesh shading with sufficient limits.
    NoCapableAdapter,
    /// The selected adapter rejected the device request.
    DeviceRequestRejected,
    /// The adapter cannot present to this surface type at all.
    SurfaceNotSupported,
}

/// The surface's default configuration for the selected adapter, as far as
/// initialization reads it: the preferred pixel format. The present mode it
/// carries is overridden to the vsync-locked automatic mode regardless.
#[derive(Clone, Copy, PartialEq, Eq, Structural, Debug)]
pub struct SurfaceDefaults {
    pub format: u32,
}

/// Everything the backend handshake reported: the enumerated adapters'
/// capabilities in enumeration order, whether the selected adapter granted
/// the device request, and the surface's default configuration if the
/// adapter can present to it.
pub struct BackendResponse {
    pub adapters: Vec<AdapterCaps>,
    pub device_granted: bool,
    pub surface_defaults: Option<SurfaceDefaults>,
}

/// Whether some enumerated adapter qualifies for mesh shading.
pub open spec fn spec_has_qualifying(adapters: Seq<AdapterCaps>) -> bool {
    exists|i: int| 0 <= i < adapters.len() && spec_qualifies(adapters[i])
}

/// The renderer that a successful initialization yields for a given surface
/// format and window size: the initial configuration, and the one mesh
/// pipeline built against the same format.
pub open spec fn spec_initialized(format: u32, width: u32, height: u32) -> Renderer {
    Renderer {
        config: spec_initial_config(format, width, height),
        pipeline: spec_mesh_pipeline(format),
    }
}

/// Decide the outcome of initialization. Succeeds exactly when a qualifying
/// adapter exists, the device request was granted, and the surface is
/// presentable on that adapter; each failure names the first step that went
/// wrong. The window size must be positive: a zero-area window is never
/// configured, and the platform adapter only begins initialization once a
/// non-zero size is obtainable.
pub fn finish_initialize(resp: &BackendResponse, width: u32, height: u32) -> (r: Result<
    Renderer,
    InitError,
>)
    requires
        width > 0,
        height > 0,
    ensures
        r is Ok <==> (spec_has_qualifying(resp.adapters@) && resp.device_granted
            && resp.surface_defaults is Some),
        match r {
            Ok(renderer) => {
                &&& renderer.wf()
                &&& renderer.config.width == width
                &&& renderer.config.height == height
                &&& (resp.surface_defaults matches Some(d) ==> renderer == spec_initialized(
                    d.format,
                    width,
                    height,
                ))
            },
            Err(e) => {
                &&& (e == InitError::NoCapableAdapter <==> !spec_has_qualifying(resp.adapters@))
                &&& (e == InitError::DeviceRequestRejected <==> spec_has_qualifying(resp.adapters@)
                    && !resp.device_granted)
                &&& (e == InitError::SurfaceNotSupported <==> spec_has_qualifying(resp.adapters@)
                    && resp.device_granted && resp.surface_defaults is None)
            },
        },
{
    let selected = select_adapter(&resp.adapters);
    match selected {
        None => Err(InitError::NoCapableAdapter),
        Some(i) => {
            assert(spec_qualifies(resp.adapters@[i as int]));
            if !resp.device_granted {
                Err(InitError::DeviceRequestRejected)
            } else {
                match resp.surface_defaults {
                    None => Err(InitError::SurfaceNotSupported),
                    Some(defaults) => {
                        let config = initial_config(defaults.format, width, height);
                        let pipeline: PipelineDesc = build_pipeline(defaults.format);
                        Ok(Renderer::new(config, pipeline))
                    },
                }
            }
        },
    }
}

/// The human-readable diagnostic for each fatal initialization failure, as
/// the process prints it before terminating.
pub open spec fn spec_diagnostic(e: InitError) -> Seq<char> {
    match e {
        InitError::NoCapableAdapter => "No adapter found with Mesh Shader support!"@,
        InitError::DeviceRequestRejected => "Cannot acquire a device from the adapter"@,
        InitError::SurfaceNotSupported => "Adapter does not support creation of surface"@,
    }
}

/// The diagnostic message for an initialization failure.
pub fn describe_error(e: &InitError) -> (r: &'static str)
    ensures
        r@ == spec_diagnostic(*e),
{
    match e {
        InitError::NoCapableAdapter => "No adapter found with Mesh Shader support!",
        InitError::DeviceRequestRejected => "Cannot acquire a device from the adapter",
        InitError::SurfaceNotSupported => "Adapter does not support creation of surface",
    }
}

} // verus!
