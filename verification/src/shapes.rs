//! Shapes: the host-owned scene data this core renders.
//!
//! A shape has a bounding rectangle, an affine-decomposed transform, paint
//! fills, an opacity, a blend mode, a visibility flag and a kind-specific
//! geometry. Shapes form a forest: a table maps each id to its shape, the
//! synthetic root id anchors the forest, and every child id is greater than
//! its parent's id — which both resolves every reference and rules out
//! cycles.

use vstd::prelude::*;

use crate::images::IdTable;
use crate::math::{Rect, COORD_MAX, MILLI};

verus! {

/// The reserved root id: the sentinel shape under which the forest hangs.
/// The root carries no visual geometry of its own.
pub const ROOT_ID: u128 = 0;

/// Largest magnitude of a scale or skew factor, in thousandths
/// (a thousand-fold stretch).
pub const SCALE_MAX: i64 = 1_000_000;

/// How a shape's pixels combine with what is already on the surface.
#[derive(Clone, Copy, PartialEq, Eq, Structural, Debug)]
pub enum BlendMode {
    Normal,
    Darken,
    Multiply,
    Lighten,
    Screen,
    Overlay,
    Difference,
}

/// An image paint layer: the id of a host-registered image asset and the
/// intrinsic size the fill declares for it.
#[derive(Clone, Copy, PartialEq, Eq, Structural, Debug)]
pub struct ImageFill {
    pub id: u128,
    pub width: i32,
    pub height: i32,
}

/// One paint layer of a shape. Fills are declared front-to-back and drawn
/// back-to-front.
#[derive(Clone, Copy, PartialEq, Eq, Structural, Debug)]
pub enum Fill {
    /// A flat color, as 0xAARRGGBB.
    Solid(u32),
    Image(ImageFill),
}

/// A handle to a path outline owned by the host; this core passes it through
/// to the draw call without reading the outline itself.
#[derive(Clone, Copy, PartialEq, Eq, Structural, Debug)]
pub struct PathRef {
    pub geometry: u128,
}

/// Kind-specific geometry of a shape.
#[derive(Clone, Copy, PartialEq, Eq, Structural, Debug)]
pub enum Kind {
    Rect(Rect),
    Path(PathRef),
}

/// A shape of the scene. `scale_*` and `skew_*` are in thousandths
/// (`MILLI` is 1.0); translations and the bounding rectangle are in scene
/// units. `opacity` is in thousandths of full opacity.
#[derive(Clone, Debug)]
pub struct Shape {
    pub selrect: Rect,
    pub children: Vec<u128>,
    pub translate_x: i64,
    pub translate_y: i64,
    pub scale_x: i64,
    pub scale_y: i64,
    pub skew_x: i64,
    pub skew_y: i64,
    pub fills: Vec<Fill>,
    pub opacity: u32,
    pub blend_mode: BlendMode,
    pub hidden: bool,
    pub kind: Kind,
}

impl Shape {
    /// Every numeric attribute within its budget, so transform composition
    /// cannot overflow.
    pub open spec fn wf(self) -> bool {
        &&& self.selrect.bounded()
        &&& -COORD_MAX <= self.translate_x <= COORD_MAX
        &&& -COORD_MAX <= self.translate_y <= COORD_MAX
        &&& -SCALE_MAX <= self.scale_x <= SCALE_MAX
        &&& -SCALE_MAX <= self.scale_y <= SCALE_MAX
        &&& -SCALE_MAX <= self.skew_x <= SCALE_MAX
        &&& -SCALE_MAX <= self.skew_y <= SCALE_MAX
        &&& self.opacity <= MILLI
    }

    /// Decides `wf` at run time, so a host can reject a shape whose
    /// attributes are out of budget before handing it to a render pass.
    pub fn check_wf(&self) -> (r: bool)
        ensures
            r == self.wf(),
    {
        -COORD_MAX <= self.selrect.x1 && self.selrect.x1 <= COORD_MAX && -COORD_MAX
            <= self.selrect.y1 && self.selrect.y1 <= COORD_MAX && -COORD_MAX <= self.selrect.x2
            && self.selrect.x2 <= COORD_MAX && -COORD_MAX <= self.selrect.y2 && self.selrect.y2
            <= COORD_MAX && -COORD_MAX <= self.translate_x && self.translate_x <= COORD_MAX
            && -COORD_MAX <= self.translate_y && self.translate_y <= COORD_MAX && -SCALE_MAX
            <= self.scale_x && self.scale_x <= SCALE_MAX && -SCALE_MAX <= self.scale_y
            && self.scale_y <= SCALE_MAX && -SCALE_MAX <= self.skew_x && self.skew_x <= SCALE_MAX
            && -SCALE_MAX <= self.skew_y && self.skew_y <= SCALE_MAX && self.opacity <= MILLI
    }
}

/// The table of shapes the host hands to a render pass.
pub type ShapeTable = IdTable<Shape>;

/// Referential integrity of a shape forest: every shape is well formed, and
/// every child id resolves to a shape with a strictly greater id than its
/// parent's. The ascending ids are what guarantees the forest has no cycles.
pub open spec fn forest_wf(tab: Map<u128, Shape>) -> bool {
    forall|id: u128| #[trigger]
        tab.dom().contains(id) ==> tab[id].wf() && child_ids_wf(tab, id)
}

/// All children of `id` resolve and carry greater ids.
pub open spec fn child_ids_wf(tab: Map<u128, Shape>, id: u128) -> bool {
    forall|k: int| 0 <= k < tab[id].children@.len() ==> tab.dom().contains(
        #[trigger] tab[id].children@[k],
    ) && tab[id].children@[k] > id
}

/// Decides `forest_wf` at run time: a host can validate a shape table
/// before a render pass and fail loudly on a violated reference, as a
/// missing shape id is a caller-contract violation.
pub fn check_forest(tab: &ShapeTable) -> (r: bool)
    requires
        tab.wf(),
    ensures
        r == forest_wf(tab@),
{
    let n = tab.entries.len();
    let mut i: usize = 0;
    while i < n
        invariant
            tab.wf(),
            n == tab.entries@.len(),
            0 <= i <= n,
            forall|j: int|
                0 <= j < i ==> tab@[#[trigger] tab.entries@[j].0].wf() && child_ids_wf(
                    tab@,
                    tab.entries@[j].0,
                ),
        decreases n - i,
    {
        let id = tab.entries[i].0;
        let shape = &tab.entries[i].1;
        proof {
            crate::images::lemma_map_of_index(tab.entries@, i as int);
        }
        if !shape.check_wf() {
            return false;
        }
        let m = shape.children.len();
        let mut k: usize = 0;
        while k < m
            invariant
                tab.wf(),
                n == tab.entries@.len(),
                0 <= i < n,
                id == tab.entries@[i as int].0,
                tab@.dom().contains(id),
                *shape == tab@[id],
                m == shape.children@.len(),
                0 <= k <= m,
                forall|t: int|
                    0 <= t < k ==> tab@.dom().contains(#[trigger] shape.children@[t])
                        && shape.children@[t] > id,
            decreases m - k,
        {
            let child = shape.children[k];
            if !tab.contains_key(child) || child <= id {
                proof {
                    assert(tab@[id].children@[k as int] == child);
                    assert(!child_ids_wf(tab@, id));
                }
                return false;
            }
            k = k + 1;
        }
        proof {
            assert(child_ids_wf(tab@, id)) by {
                assert(forall|t: int|
                    0 <= t < tab@[id].children@.len() ==> tab@.dom().contains(
                        #[trigger] tab@[id].children@[t],
                    ) && tab@[id].children@[t] > id);
            }
        }
        i = i + 1;
    }
    proof {
        assert forall|id: u128| #[trigger] tab@.dom().contains(id) implies tab@[id].wf()
            && child_ids_wf(tab@, id) by {
            crate::images::lemma_map_of_contains(tab.entries@, id);
            let j = choose|j: int| 0 <= j < tab.entries@.len() && tab.entries@[j].0 == id;
            assert(tab@[tab.entries@[j].0].wf() && child_ids_wf(tab@, tab.entries@[j].0));
        }
    }
    true
}

} // verus!
