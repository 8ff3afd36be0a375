//! Window geometry in the application and frame coordinate spaces.
//!
//! A client rectangle is stored once, in application space; the frame-space
//! rectangle is a view derived by a pure transform (inflate by the border on
//! all sides and by the titlebar on top), so the two representations cannot
//! drift apart. Hit-testing classifies a frame-local point into the move or
//! resize operation it selects.

use vstd::prelude::*;

use crate::config::{FrameConfig, COORD_LIMIT, DIM_LIMIT};

verus! {

/// A rectangle in one coordinate space: root-relative pixel position and size.
#[derive(Debug, Clone, Copy, PartialEq, Eq, Structural)]
pub struct Geometry {
    pub x: i32,
    pub y: i32,
    pub width: u32,
    pub height: u32,
}

/// A client's rectangle in application space together with the frame
/// configuration that relates it to frame space.
#[derive(Debug, Clone, Copy, PartialEq, Eq, Structural)]
pub struct ClientGeometry {
    pub geometry: Geometry,
    pub frame_config: FrameConfig,
}

/// Which vertical edge a resize drags, if any.
#[derive(Debug, Clone, Copy, PartialEq, Eq, Structural)]
pub enum VerticalResize {
    Top,
    Bottom,
    NoEdge,
}

/// Which horizontal edge a resize drags, if any.
#[derive(Debug, Clone, Copy, PartialEq, Eq, Structural)]
pub enum HorizontalResize {
    Left,
    Right,
    NoEdge,
}

/// Result of hit-testing a frame-local point: drag the whole window, or
/// resize along the selected axes.
#[derive(Debug, Clone, Copy, PartialEq, Eq, Structural)]
pub enum GeometryControl {
    Move,
    Resize(VerticalResize, HorizontalResize),
}

impl GeometryControl {
    pub fn is_resize(&self) -> (r: bool)
        ensures
            r == self.spec_is_resize(),
    {
        match self {
            GeometryControl::Move => false,
            GeometryControl::Resize(_, _) => true,
        }
    }

    pub open spec fn spec_is_resize(self) -> bool {
        self matches GeometryControl::Resize(_, _)
    }
}

/// The application-to-frame transform on mathematical integers: the frame
/// rectangle is the application rectangle inflated by the border on all
/// sides and by the titlebar height on top.
pub open spec fn app_to_frame(x: int, y: int, w: int, h: int, fc: FrameConfig) -> (int, int, int, int) {
    (
        x - fc.border_width,
        y - fc.border_width - fc.titlebar_height,
        w + 2 * fc.border_width,
        h + 2 * fc.border_width + fc.titlebar_height,
    )
}

/// The frame-to-application transform, the inverse of `app_to_frame`.
pub open spec fn frame_to_app(x: int, y: int, w: int, h: int, fc: FrameConfig) -> (int, int, int, int) {
    (
        x + fc.border_width,
        y + fc.border_width + fc.titlebar_height,
        w - 2 * fc.border_width,
        h - 2 * fc.border_width - fc.titlebar_height,
    )
}

/// Round-trip law: for every rectangle wide and tall enough to carry its
/// decoration, converting application space to frame space and back recovers
/// the application rectangle exactly, component for component.
pub proof fn lemma_frame_round_trip(x: int, y: int, w: int, h: int, fc: FrameConfig)
    requires
        w > 2 * fc.border_width,
        h > 2 * fc.border_width + fc.titlebar_height,
    ensures
        ({
            let (fx, fy, fw, fh) = app_to_frame(x, y, w, h, fc);
            frame_to_app(fx, fy, fw, fh, fc) == (x, y, w, h)
        }),
{
}

/// Clamp a proposed width or height into the representable window: never
/// below one pixel (a resize may not drive a size to zero or below) and
/// never above `DIM_LIMIT`.
pub open spec fn clamp_dim(v: int) -> int {
    if v < 1 {
        1
    } else if v > DIM_LIMIT {
        DIM_LIMIT as int
    } else {
        v
    }
}

/// New `(y, height)` after a vertical resize by `dy`. Dragging the top edge
/// keeps the bottom edge fixed; dragging the bottom edge keeps the top fixed.
pub open spec fn spec_resize_vertical(y: int, h: int, dy: int, v: VerticalResize) -> (int, int) {
    match v {
        VerticalResize::Top => {
            let nh = clamp_dim(h - dy);
            (y + h - nh, nh)
        }
        VerticalResize::Bottom => (y, clamp_dim(h + dy)),
        VerticalResize::NoEdge => (y, h),
    }
}

/// New `(x, width)` after a horizontal resize by `dx`, analogously.
pub open spec fn spec_resize_horizontal(x: int, w: int, dx: int, hz: HorizontalResize) -> (int, int) {
    match hz {
        HorizontalResize::Left => {
            let nw = clamp_dim(w - dx);
            (x + w - nw, nw)
        }
        HorizontalResize::Right => (x, clamp_dim(w + dx)),
        HorizontalResize::NoEdge => (x, w),
    }
}

impl ClientGeometry {
    /// Every coordinate within the core's bounds and the configuration well
    /// formed; enough to keep both coordinate spaces free of 32-bit overflow.
    pub open spec fn wf(self) -> bool {
        &&& self.frame_config.wf()
        &&& -COORD_LIMIT <= self.geometry.x <= COORD_LIMIT
        &&& -COORD_LIMIT <= self.geometry.y <= COORD_LIMIT
        &&& self.geometry.width <= DIM_LIMIT
        &&& self.geometry.height <= DIM_LIMIT
    }

    /// The frame-space rectangle of this client, as mathematical integers.
    pub open spec fn spec_frame(self) -> (int, int, int, int) {
        app_to_frame(
            self.geometry.x as int,
            self.geometry.y as int,
            self.geometry.width as int,
            self.geometry.height as int,
            self.frame_config,
        )
    }

    /// Construct from an application-space rectangle; the rectangle is stored
    /// as given.
    pub fn from_app(x: i32, y: i32, width: u32, height: u32, frame_config: FrameConfig) -> (r: ClientGeometry)
        requires
            frame_config.wf(),
            -COORD_LIMIT <= x <= COORD_LIMIT,
            -COORD_LIMIT <= y <= COORD_LIMIT,
            width <= DIM_LIMIT,
            height <= DIM_LIMIT,
        ensures
            r == (ClientGeometry {
                geometry: Geometry { x, y, width, height },
                frame_config,
            }),
            r.wf(),
    {
        ClientGeometry { geometry: Geometry { x, y, width, height }, frame_config }
    }

    /// Construct from a frame-space rectangle: the stored application-space
    /// rectangle is the frame rectangle deflated by the decoration.
    pub fn from_frame(x: i32, y: i32, width: u32, height: u32, frame_config: FrameConfig) -> (r: ClientGeometry)
        requires
            frame_config.wf(),
            -COORD_LIMIT <= x,
            x + frame_config.border_width <= COORD_LIMIT,
            -COORD_LIMIT <= y,
            y + frame_config.border_width + frame_config.titlebar_height <= COORD_LIMIT,
            2 * frame_config.border_width <= width <= DIM_LIMIT,
            2 * frame_config.border_width + frame_config.titlebar_height <= height <= DIM_LIMIT,
        ensures
            ({
                let (ax, ay, aw, ah) = frame_to_app(x as int, y as int, width as int, height as int, frame_config);
                r.geometry.x == ax && r.geometry.y == ay && r.geometry.width == aw && r.geometry.height == ah
            }),
            r.frame_config == frame_config,
            r.wf(),
    {
        ClientGeometry {
            geometry: Geometry {
                x: x + frame_config.border_width as i32,
                y: y + (frame_config.border_width + frame_config.titlebar_height) as i32,
                width: width - 2 * frame_config.border_width,
                height: height - (2 * frame_config.border_width + frame_config.titlebar_height),
            },
            frame_config,
        }
    }

    /// The application-space view: the stored rectangle itself.
    pub fn parse_as_app(&self) -> (r: Geometry)
        ensures
            r == self.geometry,
    {
        Geometry {
            x: self.geometry.x,
            y: self.geometry.y,
            width: self.geometry.width,
            height: self.geometry.height,
        }
    }

    /// The frame-space view, derived by the `app_to_frame` transform.
    pub fn parse_as_frame(&self) -> (r: Geometry)
        requires
            self.wf(),
        ensures
            ({
                let (fx, fy, fw, fh) = self.spec_frame();
                r.x == fx && r.y == fy && r.width == fw && r.height == fh
            }),
    {
        Geometry {
            x: self.geometry.x - self.frame_config.border_width as i32,
            y: self.geometry.y
                - (self.frame_config.border_width + self.frame_config.titlebar_height) as i32,
            width: self.geometry.width + 2 * self.frame_config.border_width,
            height: self.geometry.height
                + (2 * self.frame_config.border_width + self.frame_config.titlebar_height),
        }
    }

    /// Translate the rectangle; both coordinate-space views move together
    /// since the frame view is derived from the stored rectangle.
    pub fn move_relative(&self, rel_x: i32, rel_y: i32) -> (r: ClientGeometry)
        requires
            self.wf(),
            -COORD_LIMIT <= self.geometry.x + rel_x <= COORD_LIMIT,
            -COORD_LIMIT <= self.geometry.y + rel_y <= COORD_LIMIT,
        ensures
            r.geometry.x == self.geometry.x + rel_x,
            r.geometry.y == self.geometry.y + rel_y,
            r.geometry.width == self.geometry.width,
            r.geometry.height == self.geometry.height,
            r.frame_config == self.frame_config,
            r.wf(),
    {
        ClientGeometry {
            geometry: Geometry {
                x: self.geometry.x + rel_x,
                y: self.geometry.y + rel_y,
                width: self.geometry.width,
                height: self.geometry.height,
            },
            frame_config: self.frame_config,
        }
    }

    /// The frame-local `y` lies within the border band of the top or bottom
    /// frame edge.
    pub open spec fn on_border_vertically(self, y: int) -> bool {
        let (_, _, _, fh) = self.spec_frame();
        y < self.frame_config.border_width || y > fh - self.frame_config.border_width
    }

    /// The frame-local `y` lies within the corner band (at least as wide as
    /// the border band when the configuration keeps the corner radius at or
    /// above the border width) of the top or bottom frame edge.
    pub open spec fn on_corner_vertically(self, y: int) -> bool {
        let (_, _, _, fh) = self.spec_frame();
        y < self.frame_config.corner_radius || y > fh - self.frame_config.corner_radius
    }

    /// The frame-local `x` lies within the border band of the left or right
    /// frame edge.
    pub open spec fn on_border_horizontally(self, x: int) -> bool {
        let (_, _, fw, _) = self.spec_frame();
        x < self.frame_config.border_width || x > fw - self.frame_config.border_width
    }

    /// The frame-local `x` lies within the corner band of the left or right
    /// frame edge.
    pub open spec fn on_corner_horizontally(self, x: int) -> bool {
        let (_, _, fw, _) = self.spec_frame();
        x < self.frame_config.corner_radius || x > fw - self.frame_config.corner_radius
    }

    /// Which vertical edge a hit in the upper or lower half of the frame
    /// would drag.
    pub open spec fn vertical_half(self, y: int) -> VerticalResize {
        let (_, _, _, fh) = self.spec_frame();
        if y < fh / 2 {
            VerticalResize::Top
        } else {
            VerticalResize::Bottom
        }
    }

    /// Which horizontal edge a hit in the left or right half of the frame
    /// would drag.
    pub open spec fn horizontal_half(self, x: int) -> HorizontalResize {
        let (_, _, fw, _) = self.spec_frame();
        if x < fw / 2 {
            HorizontalResize::Left
        } else {
            HorizontalResize::Right
        }
    }

    /// Classification of a frame-local point. A hit inside the corner band on
    /// both axes resizes along both; a hit on exactly one axis resizes along
    /// it only when it falls in the narrow border band, so the middle of each
    /// edge (outside the border band but inside the wider corner band) still
    /// moves the window.
    pub open spec fn control_at(self, x: int, y: int) -> GeometryControl {
        let vb = self.on_border_vertically(y);
        let vc = self.on_corner_vertically(y);
        let hb = self.on_border_horizontally(x);
        let hc = self.on_corner_horizontally(x);
        if (vb || vc) && (hb || hc) {
            GeometryControl::Resize(self.vertical_half(y), self.horizontal_half(x))
        } else if vb {
            GeometryControl::Resize(self.vertical_half(y), HorizontalResize::NoEdge)
        } else if hb {
            GeometryControl::Resize(VerticalResize::NoEdge, self.horizontal_half(x))
        } else {
            GeometryControl::Move
        }
    }

    /// Hit-test a point given in frame-local coordinates and classify the
    /// move or resize operation it selects.
    pub fn check_control_by_position_on_frame(&self, x_on_frame: i32, y_on_frame: i32) -> (r: GeometryControl)
        requires
            self.wf(),
        ensures
            r == self.control_at(x_on_frame as int, y_on_frame as int),
    {
        let frame_geom = self.parse_as_frame();
        let border = self.frame_config.border_width as i32;
        let corner = self.frame_config.corner_radius as i32;

        let on_border_vertically =
            y_on_frame < border || y_on_frame > frame_geom.height as i32 - border;
        let on_corner_vertically =
            y_on_frame < corner || y_on_frame > frame_geom.height as i32 - corner;
        let on_border_horizontally =
            x_on_frame < border || x_on_frame > frame_geom.width as i32 - border;
        let on_corner_horizontally =
            x_on_frame < corner || x_on_frame > frame_geom.width as i32 - corner;

        let vertical = if y_on_frame < (frame_geom.height / 2) as i32 {
            VerticalResize::Top
        } else {
            VerticalResize::Bottom
        };
        let horizontal = if x_on_frame < (frame_geom.width / 2) as i32 {
            HorizontalResize::Left
        } else {
            HorizontalResize::Right
        };

        if (on_border_vertically || on_corner_vertically)
            && (on_border_horizontally || on_corner_horizontally) {
            GeometryControl::Resize(vertical, horizontal)
        } else if on_border_vertically {
            GeometryControl::Resize(vertical, HorizontalResize::NoEdge)
        } else if on_border_horizontally {
            GeometryControl::Resize(VerticalResize::NoEdge, horizontal)
        } else {
            GeometryControl::Move
        }
    }

    /// The rectangle after applying a pointer delta under a control, as
    /// mathematical integers: `Move` translates, `Resize` drags the selected
    /// edges with widths and heights clamped by `clamp_dim`.
    pub open spec fn spec_move_resize(self, dx: int, dy: int, control: GeometryControl) -> (int, int, int, int) {
        match control {
            GeometryControl::Move => (
                self.geometry.x + dx,
                self.geometry.y + dy,
                self.geometry.width as int,
                self.geometry.height as int,
            ),
            GeometryControl::Resize(v, hz) => {
                let (ny, nh) = spec_resize_vertical(self.geometry.y as int, self.geometry.height as int, dy, v);
                let (nx, nw) = spec_resize_horizontal(self.geometry.x as int, self.geometry.width as int, dx, hz);
                (nx, ny, nw, nh)
            }
        }
    }

    /// Apply a pointer delta under a control: `Move` translates the whole
    /// rectangle; `Resize` drags only the selected edges, keeping the
    /// opposite edge fixed and clamping the size into `[1, DIM_LIMIT]` so a
    /// drag can never drive a width or height to zero or below.
    pub fn move_resize_on_control(&self, cursor_move_x: i32, cursor_move_y: i32, control: GeometryControl) -> (r: ClientGeometry)
        requires
            self.wf(),
            ({
                let (nx, ny, nw, nh) = self.spec_move_resize(cursor_move_x as int, cursor_move_y as int, control);
                -COORD_LIMIT <= nx <= COORD_LIMIT && -COORD_LIMIT <= ny <= COORD_LIMIT
            }),
        ensures
            ({
                let (nx, ny, nw, nh) = self.spec_move_resize(cursor_move_x as int, cursor_move_y as int, control);
                r.geometry.x == nx && r.geometry.y == ny && r.geometry.width == nw && r.geometry.height == nh
            }),
            r.frame_config == self.frame_config,
            r.wf(),
    {
        match control {
            GeometryControl::Move => self.move_relative(cursor_move_x, cursor_move_y),
            GeometryControl::Resize(vertical, horizontal) => {
                let mut new_geom = self.geometry;
                match vertical {
                    VerticalResize::Top => {
                        let nh = clamp_dim_exec(new_geom.height as i64 - cursor_move_y as i64);
                        new_geom.y = (new_geom.y as i64 + new_geom.height as i64 - nh as i64) as i32;
                        new_geom.height = nh;
                    }
                    VerticalResize::Bottom => {
                        new_geom.height = clamp_dim_exec(new_geom.height as i64 + cursor_move_y as i64);
                    }
                    VerticalResize::NoEdge => {}
                }
                match horizontal {
                    HorizontalResize::Left => {
                        let nw = clamp_dim_exec(new_geom.width as i64 - cursor_move_x as i64);
                        new_geom.x = (new_geom.x as i64 + new_geom.width as i64 - nw as i64) as i32;
                        new_geom.width = nw;
                    }
                    HorizontalResize::Right => {
                        new_geom.width = clamp_dim_exec(new_geom.width as i64 + cursor_move_x as i64);
                    }
                    HorizontalResize::NoEdge => {}
                }
                ClientGeometry { geometry: new_geom, frame_config: self.frame_config }
            }
        }
    }
}

/// Hit-test symmetry, upper-left corner: whenever the border band is at least
/// two pixels wide and the corner radius at least the border width, the point
/// one pixel inside the frame's upper-left corner resizes along both axes.
pub proof fn lemma_hit_test_corner_top_left(g: ClientGeometry)
    requires
        g.wf(),
        g.frame_config.corner_radius >= g.frame_config.border_width,
        g.frame_config.border_width >= 2,
    ensures
        g.control_at(1, 1) == GeometryControl::Resize(VerticalResize::Top, HorizontalResize::Left),
{
}

/// Hit-test symmetry, upper-right corner: the point one pixel inside the
/// frame's upper-right corner resizes top and right.
pub proof fn lemma_hit_test_corner_top_right(g: ClientGeometry)
    requires
        g.wf(),
        g.frame_config.corner_radius >= g.frame_config.border_width,
        g.frame_config.border_width >= 2,
    ensures
        ({
            let (_, _, fw, _) = g.spec_frame();
            g.control_at(fw - 1, 1) == GeometryControl::Resize(VerticalResize::Top, HorizontalResize::Right)
        }),
{
}

/// Hit-test symmetry, edge interior: a point just past the border band on
/// both axes that lies outside the corner band classifies as a move, not a
/// resize.
pub proof fn lemma_hit_test_inside_corner_band_moves(g: ClientGeometry)
    requires
        g.wf(),
        g.frame_config.corner_radius >= g.frame_config.border_width,
        !g.on_corner_vertically(g.frame_config.border_width + 2),
        !g.on_corner_horizontally(g.frame_config.border_width + 2),
    ensures
        g.control_at(
            g.frame_config.border_width + 2,
            g.frame_config.border_width + 2,
        ) == GeometryControl::Move,
{
}

/// Executable counterpart of `clamp_dim` on a 64-bit intermediate value.
fn clamp_dim_exec(v: i64) -> (r: u32)
    ensures
        r as int == clamp_dim(v as int),
{
    if v < 1 {
        1
    } else if v > DIM_LIMIT as i64 {
        DIM_LIMIT
    } else {
        v as u32
    }
}

} // verus!

