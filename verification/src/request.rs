//! Outbound window-system requests, as plain values.
//!
//! The reconciler decides; the caller performs. Each variant stands for one
//! protocol request (or one renderer action) the caller must issue, in the
//! order the reconciler emitted them.

use vstd::prelude::*;

use crate::client::Client;
use crate::geometry::Geometry;

verus! {

/// One outbound request. `ConfigureWindow` carries independently settable
/// fields: a field that is `None` is left untouched by the request.
#[derive(Debug, Clone, Copy, PartialEq, Eq)]
pub enum Request {
    /// Create a decorated frame window covering the given rectangle.
    CreateWindow { window: u32, geometry: Geometry },
    /// Reconfigure a window; `stack_above` restacks it to the top.
    ConfigureWindow {
        window: u32,
        x: Option<i32>,
        y: Option<i32>,
        width: Option<u32>,
        height: Option<u32>,
        border_width: Option<u32>,
        sibling: Option<u32>,
        stack_above: bool,
    },
    MapWindow { window: u32 },
    DestroyWindow { window: u32 },
    /// Give the application window input focus.
    SetInputFocus { window: u32 },
    /// Acquire the server-wide mutual-exclusion bracket.
    GrabServer,
    /// Release the server-wide mutual-exclusion bracket.
    UngrabServer,
    /// Create the drawable surface for a frame window, at the frame size.
    CreateSurface { window: u32, width: u32, height: u32 },
    /// Resize the drawable surface of a frame window.
    ResizeSurface { window: u32, width: u32, height: u32 },
    /// Re-render a client's frame decoration at its current geometry.
    DrawFrame { client: Client },
}

/// A configure request that only restacks the window to the top.
pub open spec fn spec_raise_window(window: u32) -> Request {
    Request::ConfigureWindow {
        window,
        x: Option::None,
        y: Option::None,
        width: Option::None,
        height: Option::None,
        border_width: Option::None,
        sibling: Option::None,
        stack_above: true,
    }
}

/// A configure request that only moves the window.
pub open spec fn spec_move_window(window: u32, x: i32, y: i32) -> Request {
    Request::ConfigureWindow {
        window,
        x: Option::Some(x),
        y: Option::Some(y),
        width: Option::None,
        height: Option::None,
        border_width: Option::None,
        sibling: Option::None,
        stack_above: false,
    }
}

/// A configure request that moves and resizes the window.
pub open spec fn spec_move_resize_window(window: u32, x: i32, y: i32, width: u32, height: u32) -> Request {
    Request::ConfigureWindow {
        window,
        x: Option::Some(x),
        y: Option::Some(y),
        width: Option::Some(width),
        height: Option::Some(height),
        border_width: Option::None,
        sibling: Option::None,
        stack_above: false,
    }
}

/// Build `spec_raise_window`'s request.
pub fn raise_window_request(window: u32) -> (r: Request)
    ensures
        r == spec_raise_window(window),
{
    Request::ConfigureWindow {
        window,
        x: None,
        y: None,
        width: None,
        height: None,
        border_width: None,
        sibling: None,
        stack_above: true,
    }
}

/// Build `spec_move_window`'s request.
pub fn move_window_request(window: u32, x: i32, y: i32) -> (r: Request)
    ensures
        r == spec_move_window(window, x, y),
{
    Request::ConfigureWindow {
        window,
        x: Some(x),
        y: Some(y),
        width: None,
        height: None,
        border_width: None,
        sibling: None,
        stack_above: false,
    }
}

/// Build `spec_move_resize_window`'s request.
pub fn move_resize_window_request(window: u32, x: i32, y: i32, width: u32, height: u32) -> (r: Request)
    ensures
        r == spec_move_resize_window(window, x, y, width, height),
{
    Request::ConfigureWindow {
        window,
        x: Some(x),
        y: Some(y),
        width: Some(width),
        height: Some(height),
        border_width: None,
        sibling: None,
        stack_above: false,
    }
}

} // verus!
