//! Draw commands. A surface records the ordered commands issued to its
//! canvas; the host replays them on its GPU backend. Each command carries
//! plain values only, so two command logs compare structurally.

use vstd::prelude::*;

use crate::math::Rect;
use crate::shapes::{BlendMode, Kind};

verus! {

/// A 2x3 affine matrix. `a`, `b`, `d`, `e` are in thousandths; `c` and `f`
/// are scene units. It maps `(x, y)` to
/// `((a*x + b*y)/1000 + c, (d*x + e*y)/1000 + f)`.
#[derive(Clone, Copy, PartialEq, Eq, Structural, Debug)]
pub struct Matrix {
    pub a: i64,
    pub b: i64,
    pub c: i64,
    pub d: i64,
    pub e: i64,
    pub f: i64,
}

/// Which auxiliary surface a composite command reads from.
#[derive(Clone, Copy, PartialEq, Eq, Structural, Debug)]
pub enum SourceSurface {
    Drawing,
    Debug,
}

/// One command issued to a surface's canvas. Scale factors and opacity are
/// in thousandths; offsets and rectangles in scene units.
#[derive(Clone, Copy, PartialEq, Eq, Structural, Debug)]
pub enum CanvasOp {
    /// Erase the surface to transparent.
    Clear,
    /// Reset the canvas transform to the identity.
    ResetMatrix,
    /// Push the current canvas transform.
    Save,
    /// Pop back to the transform of the matching `Save`.
    Restore,
    Scale { sx: i64, sy: i64 },
    Translate { dx: i64, dy: i64 },
    /// Multiply the canvas transform by `m`.
    Concat { m: Matrix },
    /// Fill `rect` with a flat color.
    DrawRect { rect: Rect, color: u32 },
    /// Fill the path outline `geometry` (a host-owned handle) with a color.
    DrawPath { geometry: u128, color: u32 },
    /// Draw the image asset `asset`, of declared intrinsic size
    /// `fill_width` x `fill_height`, scaled into the container `rect`
    /// under the containment rule of the shape kind.
    DrawImageFill { asset: u128, fill_width: i32, fill_height: i32, rect: Rect, kind: Kind },
    /// Draw a previously captured raster snapshot at the origin.
    DrawSnapshot { snapshot: u64 },
    /// Composite an auxiliary surface onto this one through an
    /// opacity-and-blend paint.
    DrawSurface { source: SourceSurface, opacity: u32, blend: BlendMode },
    /// Debug overlay: outline a shape's bounds, marked included or excluded.
    DebugShapeRect { rect: Rect, included: bool },
    /// Debug overlay: outline the scaled viewbox.
    DebugViewRect { rect: Rect },
}

} // verus!
