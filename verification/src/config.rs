//! The surface configuration: the pixel format, size and present mode that a
//! presentable surface is configured with. The configuration is derived once
//! at initialization from the backend's default for the adapter, with the
//! present mode overridden to a vsync-locked automatic mode, and afterwards
//! only its width and height change, through the renderer's resize policy.

use vstd::prelude::*;

verus! {

/// The policy governing when a finished frame is shown on the display.
#[derive(Clone, Copy, PartialEq, Eq, Structural, Debug)]
pub enum PresentMode {
    AutoVsync,
    AutoNoVsync,
    Fifo,
    FifoRelaxed,
    Immediate,
    Mailbox,
}

/// The configuration of a presentable surface. The pixel format is carried
/// as an opaque code in the backend's numbering: the logic never reads into
/// it, it only requires it to match the pipeline's output format.
#[derive(Clone, Copy, PartialEq, Eq, Structural, Debug)]
pub struct SurfaceConfig {
    pub format: u32,
    pub width: u32,
    pub height: u32,
    pub present_mode: PresentMode,
}

/// The configuration that initialization derives: the adapter's default
/// format, the window's client-area size, and the present mode forced to
/// the vsync-locked automatic mode.
pub open spec fn spec_initial_config(format: u32, width: u32, height: u32) -> SurfaceConfig {
    SurfaceConfig { format, width, height, present_mode: PresentMode::AutoVsync }
}

/// Build the initial surface configuration. A zero-area window is never
/// configured, so both dimensions must be positive here.
pub fn initial_config(format: u32, width: u32, height: u32) -> (c: SurfaceConfig)
    requires
        width > 0,
        height > 0,
    ensures
        c == spec_initial_config(format, width, height),
{
    SurfaceConfig { format, width, height, present_mode: PresentMode::AutoVsync }
}

} // verus!
