use vstd::prelude::*;

verus! {

/// Frames the GPU may have in flight before presentation blocks.
pub const MAX_FRAME_LATENCY: u32 = 2;

/// The drawable size of the presentation surface, in physical pixels.
#[derive(Clone, Copy, Debug, PartialEq, Eq, Structural)]
pub struct Size {
    pub width: u32,
    pub height: u32,
}

impl Size {
    pub fn new(width: u32, height: u32) -> (s: Size)
        ensures
            s == (Size { width, height }),
    {
        Size { width, height }
    }
}

/// How the presentation surface is to be configured. The color format
/// (8-bit BGRA), the present mode (vsync, no tearing) and opaque alpha are
/// fixed; what varies is the size.
#[derive(Clone, Copy, Debug, PartialEq, Eq, Structural)]
pub struct SurfaceConfig {
    pub width: u32,
    pub height: u32,
    pub max_frame_latency: u32,
}

pub open spec fn config_for(size: Size) -> SurfaceConfig {
    SurfaceConfig { width: size.width, height: size.height, max_frame_latency: MAX_FRAME_LATENCY }
}

impl SurfaceConfig {
    /// The configuration for a surface of the given size.
    pub fn for_size(size: Size) -> (c: SurfaceConfig)
        ensures
            c == config_for(size),
    {
        SurfaceConfig { width: size.width, height: size.height, max_frame_latency: MAX_FRAME_LATENCY }
    }
}

/// Why a surface image could not be acquired.
#[derive(Clone, Copy, Debug, PartialEq, Eq, Structural)]
pub enum SurfaceError {
    /// Acquisition took too long.
    Timeout,
    /// The surface changed and must be reconfigured.
    Outdated,
    /// The surface was lost and must be reconfigured.
    Lost,
    /// There is no memory left to acquire an image.
    OutOfMemory,
}

/// Errors after which reconfiguring the surface may let acquisition succeed.
pub open spec fn needs_reconfigure(e: SurfaceError) -> bool {
    e is Outdated || e is Lost
}

impl SurfaceError {
    pub fn needs_reconfigure(&self) -> (r: bool)
        ensures
            r == needs_reconfigure(*self),
    {
        match self {
            SurfaceError::Outdated | SurfaceError::Lost => true,
            _ => false,
        }
    }
}

} // verus!
