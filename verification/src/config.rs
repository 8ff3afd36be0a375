//! Per-session frame decoration configuration.

use vstd::prelude::*;

verus! {

/// Geometry limits the core works within. Window-system wire coordinates are
/// 16-bit, so positions and sizes handled here stay far below these bounds;
/// keeping every stored coordinate inside them makes all frame/application
/// space conversions free of 32-bit overflow.
pub const COORD_LIMIT: i32 = 0x0100_0000;

/// Largest width or height the core lets a rectangle take.
pub const DIM_LIMIT: u32 = 0x0100_0000;

/// Largest border width, titlebar height or corner radius accepted.
pub const FRAME_EXTENT_LIMIT: u32 = 0xFFFF;

/// Immutable per-session decoration configuration: border thickness,
/// titlebar height, and the corner hit-test radius.
#[derive(Debug, Clone, Copy, PartialEq, Eq, Structural)]
pub struct FrameConfig {
    pub border_width: u32,
    pub titlebar_height: u32,
    pub corner_radius: u32,
}

impl FrameConfig {
    /// The extents a configuration may use: each stays within the wire-format
    /// bound, so inflating a bounded rectangle by them cannot overflow.
    pub open spec fn wf(self) -> bool {
        &&& self.border_width <= FRAME_EXTENT_LIMIT
        &&& self.titlebar_height <= FRAME_EXTENT_LIMIT
        &&& self.corner_radius <= FRAME_EXTENT_LIMIT
    }
}

/// Whole-session configuration handed to the event reconciler.
#[derive(Debug, Clone)]
pub struct WindowManagerConfig {
    pub frame_config: FrameConfig,
}

impl Default for WindowManagerConfig {
    fn default() -> (res: Self)
        ensures
            res.frame_config == (FrameConfig {
                border_width: 18u32,
                titlebar_height: 20u32,
                corner_radius: 24u32,
            }),
            res.frame_config.wf(),
    {
        Self {
            frame_config: FrameConfig {
                border_width: 18,
                titlebar_height: 20,
                corner_radius: 24,
            },
        }
    }
}

} // verus!
