//! The cached-frame record: the raster snapshot of the last full render,
//! the viewbox that produced it, and whether that render was complete.

use vstd::prelude::*;

use crate::view::Viewbox;

verus! {

/// A captured raster snapshot of the final surface. The host keeps the
/// pixels; this core keeps the capture's sequence number and dimensions.
#[derive(Clone, Copy, PartialEq, Eq, Structural, Debug)]
pub struct Snapshot {
    pub id: u64,
    pub width: i32,
    pub height: i32,
}

/// The most recent full-render snapshot, the viewbox it was rendered under,
/// and a completeness flag: true iff no shape was culled in that render.
#[derive(Clone, Copy, PartialEq, Eq, Structural, Debug)]
pub struct CachedSurfaceImage {
    pub image: Snapshot,
    pub viewbox: Viewbox,
    pub has_all_shapes: bool,
}

impl CachedSurfaceImage {
    /// A cached frame is dirty — unusable for a fast-path redraw — iff it is
    /// not complete and the new viewbox's visible area is not fully inside
    /// the cached viewbox's visible area.
    pub open spec fn spec_is_dirty(self, viewbox: Viewbox) -> bool {
        !self.has_all_shapes && !self.viewbox.area.spec_contains(viewbox.area)
    }

    pub fn is_dirty(&self, viewbox: &Viewbox) -> (r: bool)
        ensures
            r == self.spec_is_dirty(*viewbox),
    {
        !self.has_all_shapes && !self.viewbox.area.contains(&viewbox.area)
    }
}

} // verus!
