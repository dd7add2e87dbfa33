//! The viewbox: the window of scene coordinates currently visible, given by
//! logical pixel size, zoom and pan. Its visible area is always the pure
//! function of those four values, never stored stale.

use vstd::prelude::*;

use crate::math::{Rect, COORD_MAX, MILLI};

verus! {

/// Largest logical width or height of the viewport, in pixels.
pub const MAX_DIM: i32 = 100_000;

/// Largest zoom factor, in thousandths (ten-thousand-fold magnification).
pub const ZOOM_MAX: u32 = 10_000_000;

/// The window of scene coordinates currently visible.
///
/// `width` and `height` are the logical pixel size, `zoom` is in thousandths
/// (`MILLI` is 1.0), and `pan_x`/`pan_y` are the scene offset applied before
/// zooming: scene point `p` lands on pixel `(p + pan) * zoom`.
#[derive(Clone, Copy, PartialEq, Eq, Structural, Debug)]
pub struct Viewbox {
    pub width: i32,
    pub height: i32,
    pub zoom: u32,
    pub pan_x: i64,
    pub pan_y: i64,
    pub area: Rect,
}

/// The visible area in scene coordinates, as a pure function of size, zoom
/// and pan: the box of scene points that map into the viewport.
pub open spec fn spec_view_area(width: i32, height: i32, zoom: u32, pan_x: i64, pan_y: i64) -> Rect {
    Rect {
        x1: (-pan_x) as i64,
        y1: (-pan_y) as i64,
        x2: (-pan_x + (width * MILLI) / (zoom as int)) as i64,
        y2: (-pan_y + (height * MILLI) / (zoom as int)) as i64,
    }
}

impl Viewbox {
    /// Parameters in range, and the stored visible area consistent with them.
    pub open spec fn wf(self) -> bool {
        &&& 0 <= self.width <= MAX_DIM
        &&& 0 <= self.height <= MAX_DIM
        &&& 1 <= self.zoom <= ZOOM_MAX
        &&& -COORD_MAX <= self.pan_x <= COORD_MAX
        &&& -COORD_MAX <= self.pan_y <= COORD_MAX
        &&& self.area == spec_view_area(self.width, self.height, self.zoom, self.pan_x, self.pan_y)
    }

    pub fn new(width: i32, height: i32) -> (v: Viewbox)
        requires
            0 <= width <= MAX_DIM,
            0 <= height <= MAX_DIM,
        ensures
            v.wf(),
            v.width == width,
            v.height == height,
            v.zoom == MILLI,
            v.pan_x == 0,
            v.pan_y == 0,
    {
        let mut v = Viewbox {
            width,
            height,
            zoom: MILLI,
            pan_x: 0,
            pan_y: 0,
            area: Rect { x1: 0, y1: 0, x2: 0, y2: 0 },
        };
        v.recompute_area();
        v
    }

    /// Re-derives the visible area from the current parameters.
    fn recompute_area(&mut self)
        requires
            0 <= old(self).width <= MAX_DIM,
            0 <= old(self).height <= MAX_DIM,
            1 <= old(self).zoom <= ZOOM_MAX,
            -COORD_MAX <= old(self).pan_x <= COORD_MAX,
            -COORD_MAX <= old(self).pan_y <= COORD_MAX,
        ensures
            final(self).wf(),
            final(self).width == old(self).width,
            final(self).height == old(self).height,
            final(self).zoom == old(self).zoom,
            final(self).pan_x == old(self).pan_x,
            final(self).pan_y == old(self).pan_y,
    {
        let span_x: i64 = ((self.width as u64 * MILLI as u64) / (self.zoom as u64)) as i64;
        let span_y: i64 = ((self.height as u64 * MILLI as u64) / (self.zoom as u64)) as i64;
        self.area = Rect {
            x1: -self.pan_x,
            y1: -self.pan_y,
            x2: -self.pan_x + span_x,
            y2: -self.pan_y + span_y,
        };
    }

    /// Changes the logical size, keeping zoom and pan.
    pub fn set_wh(&mut self, width: i32, height: i32)
        requires
            old(self).wf(),
            0 <= width <= MAX_DIM,
            0 <= height <= MAX_DIM,
        ensures
            final(self).wf(),
            *final(self) == (Viewbox {
                width,
                height,
                area: spec_view_area(width, height, old(self).zoom, old(self).pan_x, old(self).pan_y),
                ..*old(self)
            }),
    {
        self.width = width;
        self.height = height;
        self.recompute_area();
    }

    /// Changes the zoom factor (in thousandths), keeping size and pan.
    pub fn set_zoom(&mut self, zoom: u32)
        requires
            old(self).wf(),
            1 <= zoom <= ZOOM_MAX,
        ensures
            final(self).wf(),
            *final(self) == (Viewbox {
                zoom,
                area: spec_view_area(old(self).width, old(self).height, zoom, old(self).pan_x, old(self).pan_y),
                ..*old(self)
            }),
    {
        self.zoom = zoom;
        self.recompute_area();
    }

    /// Changes the pan offsets, keeping size and zoom.
    pub fn set_pan(&mut self, pan_x: i64, pan_y: i64)
        requires
            old(self).wf(),
            -COORD_MAX <= pan_x <= COORD_MAX,
            -COORD_MAX <= pan_y <= COORD_MAX,
        ensures
            final(self).wf(),
            *final(self) == (Viewbox {
                pan_x,
                pan_y,
                area: spec_view_area(old(self).width, old(self).height, old(self).zoom, pan_x, pan_y),
                ..*old(self)
            }),
    {
        self.pan_x = pan_x;
        self.pan_y = pan_y;
        self.recompute_area();
    }
}

} // verus!
