//! Laws of the renderer, proved against the model in `model`.
//!
//! Each proof function states one property of the tree walk, the cache
//! validity rule or the fill renderer that holds for all inputs, over the
//! same specification functions the executable contracts use.

use vstd::prelude::*;

use crate::cache::CachedSurfaceImage;
use crate::images::ImageInfo;
use crate::math::Rect;
use crate::model::{debug_scaled, fill_ops, fills_ops_from, shape_drw_ops, visit, visit_children};
use crate::ops::CanvasOp;
use crate::shapes::{forest_wf, Fill, Kind, Shape, ROOT_ID};
use crate::view::Viewbox;

verus! {

/// A non-root shape that is hidden or outside the visible area is culled:
/// the walk draws none of its fills, does not descend into its children,
/// and marks exactly one "excluded" rectangle on the debug overlay.
pub proof fn lemma_culled_shape_not_rendered(
    tab: Map<u128, Shape>,
    imgs: Map<u128, ImageInfo>,
    area: Rect,
    id: u128,
)
    requires
        tab.dom().contains(id),
        id != ROOT_ID,
        tab[id].hidden || !tab[id].selrect.spec_intersects(area),
    ensures
        visit(tab, imgs, area, id).fin == Seq::<CanvasOp>::empty(),
        visit(tab, imgs, area, id).drw == Seq::<CanvasOp>::empty(),
        visit(tab, imgs, area, id).dbg == seq![
            CanvasOp::DebugShapeRect { rect: debug_scaled(tab[id].selrect), included: false },
        ],
        visit(tab, imgs, area, id).complete == area.spec_contains(tab[id].selrect),
{
}

/// A shape that is visited and not culled is marked "included" on the
/// debug overlay: its debug output starts with the "included" rectangle
/// (the root itself is anchoring only and gets no mark).
pub proof fn lemma_visible_shape_marked_included(
    tab: Map<u128, Shape>,
    imgs: Map<u128, ImageInfo>,
    area: Rect,
    id: u128,
)
    requires
        tab.dom().contains(id),
        id != ROOT_ID,
        !tab[id].hidden,
        tab[id].selrect.spec_intersects(area),
    ensures
        visit(tab, imgs, area, id).dbg.len() >= 1,
        visit(tab, imgs, area, id).dbg[0] == (CanvasOp::DebugShapeRect {
            rect: debug_scaled(tab[id].selrect),
            included: true,
        }),
{
}

/// When every shape of the forest is fully contained in the visible area,
/// the walk reports completeness: the cached frame of such a render is
/// tagged complete.
pub proof fn lemma_all_contained_complete(
    tab: Map<u128, Shape>,
    imgs: Map<u128, ImageInfo>,
    area: Rect,
    id: u128,
)
    requires
        tab.dom().contains(id),
        forall|s: u128| #[trigger] tab.dom().contains(s) ==> area.spec_contains(tab[s].selrect),
    ensures
        visit(tab, imgs, area, id).complete,
    decreases u128::MAX - id, 1int, 0int,
{
    let s = tab[id];
    assert(area.spec_contains(s.selrect));
    if !(id != ROOT_ID && (!s.selrect.spec_intersects(area) || s.hidden)) {
        lemma_all_contained_complete_children(
            tab,
            imgs,
            area,
            id,
            s.children@,
            s.children@.len() as int,
        );
    }
}

/// Helper for `lemma_all_contained_complete`: the children fold reports
/// completeness under the same hypothesis.
proof fn lemma_all_contained_complete_children(
    tab: Map<u128, Shape>,
    imgs: Map<u128, ImageInfo>,
    area: Rect,
    parent: u128,
    children: Seq<u128>,
    k: int,
)
    requires
        forall|s: u128| #[trigger] tab.dom().contains(s) ==> area.spec_contains(tab[s].selrect),
    ensures
        visit_children(tab, imgs, area, parent, children, k).complete,
    decreases u128::MAX - parent, 0int, k,
{
    if k > 0 {
        lemma_all_contained_complete_children(tab, imgs, area, parent, children, k - 1);
        let c = children[k - 1];
        if c > parent && tab.dom().contains(c) {
            lemma_all_contained_complete(tab, imgs, area, c);
        }
    }
}

/// Completeness is honest about the node itself: a walk that reports
/// completeness visited a shape that was fully contained.
pub proof fn lemma_complete_implies_contained(
    tab: Map<u128, Shape>,
    imgs: Map<u128, ImageInfo>,
    area: Rect,
    id: u128,
)
    requires
        visit(tab, imgs, area, id).complete,
    ensures
        area.spec_contains(tab[id].selrect),
{
}

/// Completeness of the children fold carries to each child it visited.
pub proof fn lemma_children_complete_at(
    tab: Map<u128, Shape>,
    imgs: Map<u128, ImageInfo>,
    area: Rect,
    parent: u128,
    children: Seq<u128>,
    n: int,
    k: int,
)
    requires
        0 <= k < n,
        children[k] > parent,
        tab.dom().contains(children[k]),
        visit_children(tab, imgs, area, parent, children, n).complete,
    ensures
        visit(tab, imgs, area, children[k]).complete,
    decreases n,
{
    if k < n - 1 {
        lemma_children_complete_at(tab, imgs, area, parent, children, n - 1, k);
    }
}

/// When the walk visits a shape that it culls while the shape is not fully
/// contained, the whole render reports incompleteness: the cached frame of
/// such a render is tagged incomplete. `id` is the culled shape's visited
/// parent.
pub proof fn lemma_culled_child_incomplete(
    tab: Map<u128, Shape>,
    imgs: Map<u128, ImageInfo>,
    area: Rect,
    id: u128,
    k: int,
)
    requires
        forest_wf(tab),
        tab.dom().contains(id),
        id == ROOT_ID || (!tab[id].hidden && tab[id].selrect.spec_intersects(area)),
        0 <= k < tab[id].children@.len(),
        ({
            let c = tab[id].children@[k];
            &&& tab[c].hidden || !tab[c].selrect.spec_intersects(area)
            &&& !area.spec_contains(tab[c].selrect)
        }),
    ensures
        !visit(tab, imgs, area, id).complete,
{
    let children = tab[id].children@;
    let c = children[k];
    assert(tab.dom().contains(c) && c > id);
    assert(c != ROOT_ID);
    assert(!visit(tab, imgs, area, c).complete);
    let n = children.len() as int;
    if visit_children(tab, imgs, area, id, children, n).complete {
        lemma_children_complete_at(tab, imgs, area, id, children, n, k);
        assert(false);
    }
}

/// The cache validity rule, for an incomplete cached frame: it is dirty
/// exactly when the new viewbox's visible area is not a subset of the
/// cached viewbox's visible area. A pure pan or zoom that stays within the
/// cached area keeps the fast path; a zoom-out beyond it forces a full
/// render.
pub proof fn lemma_incomplete_cache_dirty_rule(c: CachedSurfaceImage, vb: Viewbox)
    requires
        !c.has_all_shapes,
    ensures
        c.spec_is_dirty(vb) <==> !c.viewbox.area.spec_contains(vb.area),
{
}

/// A complete cached frame is never dirty: after a full uncut render,
/// every navigation takes the fast path.
pub proof fn lemma_complete_cache_never_dirty(c: CachedSurfaceImage, vb: Viewbox)
    requires
        c.has_all_shapes,
    ensures
        !c.spec_is_dirty(vb),
{
}

/// The net number of transform states a command sequence leaves pushed:
/// `Save` pushes one, `Restore` pops one, every other command leaves the
/// stack alone.
pub open spec fn save_balance(ops: Seq<CanvasOp>) -> int
    decreases ops.len(),
{
    if ops.len() == 0 {
        0
    } else {
        save_balance(ops.drop_last()) + match ops.last() {
            CanvasOp::Save => 1int,
            CanvasOp::Restore => -1int,
            _ => 0int,
        }
    }
}

/// The balance of a concatenation is the sum of the balances.
pub proof fn lemma_save_balance_concat(a: Seq<CanvasOp>, b: Seq<CanvasOp>)
    ensures
        save_balance(a + b) == save_balance(a) + save_balance(b),
    decreases b.len(),
{
    if b.len() == 0 {
        assert(a + b =~= a);
    } else {
        assert((a + b).drop_last() =~= a + b.drop_last());
        lemma_save_balance_concat(a, b.drop_last());
        assert((a + b).last() == b.last());
    }
}

/// One fill layer never touches the transform stack.
proof fn lemma_fill_ops_balanced(
    fill: Fill,
    selrect: Rect,
    kind: Kind,
    imgs: Map<u128, ImageInfo>,
)
    ensures
        save_balance(fill_ops(fill, selrect, kind, imgs)) == 0,
{
    reveal_with_fuel(save_balance, 3);
}

/// A run of fill layers never touches the transform stack.
proof fn lemma_fills_ops_from_balanced(
    fills: Seq<Fill>,
    selrect: Rect,
    kind: Kind,
    imgs: Map<u128, ImageInfo>,
    i: int,
)
    ensures
        save_balance(fills_ops_from(fills, selrect, kind, imgs, i)) == 0,
    decreases fills.len() - i,
{
    reveal_with_fuel(save_balance, 3);
    if 0 <= i < fills.len() {
        lemma_fills_ops_from_balanced(fills, selrect, kind, imgs, i + 1);
        lemma_fill_ops_balanced(fills[i], selrect, kind, imgs);
        lemma_save_balance_concat(
            fills_ops_from(fills, selrect, kind, imgs, i + 1),
            fill_ops(fills[i], selrect, kind, imgs),
        );
    }
}

/// Rendering one shape's own geometry never touches the transform stack
/// of the drawing surface beyond its own concat (which the enclosing
/// save/restore pair scopes).
proof fn lemma_shape_drw_ops_balanced(s: Shape, imgs: Map<u128, ImageInfo>)
    ensures
        save_balance(shape_drw_ops(s, imgs)) == 0,
{
    reveal_with_fuel(save_balance, 3);
    lemma_fills_ops_from_balanced(s.fills@, s.selrect, s.kind, imgs, 0);
    lemma_save_balance_concat(
        seq![CanvasOp::Concat { m: crate::model::shape_matrix(s) }],
        fills_ops_from(s.fills@, s.selrect, s.kind, imgs, 0),
    );
    lemma_save_balance_concat(
        seq![CanvasOp::Concat { m: crate::model::shape_matrix(s) }] + fills_ops_from(
            s.fills@,
            s.selrect,
            s.kind,
            imgs,
            0,
        ),
        seq![CanvasOp::Clear],
    );
}

/// The stack discipline of the tree walk: every visit restores exactly
/// the transform state it observed on entry, on every path — a culled
/// shape's early return pushes nothing, and every other path closes its
/// save with a matching restore on both the final and drawing surfaces.
pub proof fn lemma_visit_restores_transforms(
    tab: Map<u128, Shape>,
    imgs: Map<u128, ImageInfo>,
    area: Rect,
    id: u128,
)
    ensures
        save_balance(visit(tab, imgs, area, id).fin) == 0,
        save_balance(visit(tab, imgs, area, id).drw) == 0,
    decreases u128::MAX - id, 1int, 0int,
{
    reveal_with_fuel(save_balance, 4);
    let s = tab[id];
    if !(id != ROOT_ID && (!s.selrect.spec_intersects(area) || s.hidden)) {
        let ch = visit_children(tab, imgs, area, id, s.children@, s.children@.len() as int);
        lemma_visit_children_restores_transforms(
            tab,
            imgs,
            area,
            id,
            s.children@,
            s.children@.len() as int,
        );
        if id == ROOT_ID {
            lemma_save_balance_concat(seq![CanvasOp::Save], ch.fin);
            lemma_save_balance_concat(seq![CanvasOp::Save] + ch.fin, seq![CanvasOp::Restore]);
            lemma_save_balance_concat(seq![CanvasOp::Save], ch.drw);
            lemma_save_balance_concat(seq![CanvasOp::Save] + ch.drw, seq![CanvasOp::Restore]);
        } else {
            let fin_head = seq![CanvasOp::Save, crate::model::shape_fin_op(s)];
            lemma_save_balance_concat(fin_head, ch.fin);
            lemma_save_balance_concat(fin_head + ch.fin, seq![CanvasOp::Restore]);
            lemma_shape_drw_ops_balanced(s, imgs);
            lemma_save_balance_concat(seq![CanvasOp::Save], shape_drw_ops(s, imgs));
            lemma_save_balance_concat(
                seq![CanvasOp::Save] + shape_drw_ops(s, imgs),
                ch.drw,
            );
            lemma_save_balance_concat(
                seq![CanvasOp::Save] + shape_drw_ops(s, imgs) + ch.drw,
                seq![CanvasOp::Restore],
            );
        }
    }
}

/// Helper for `lemma_visit_restores_transforms`: the children fold keeps
/// the balance at zero.
proof fn lemma_visit_children_restores_transforms(
    tab: Map<u128, Shape>,
    imgs: Map<u128, ImageInfo>,
    area: Rect,
    parent: u128,
    children: Seq<u128>,
    k: int,
)
    ensures
        save_balance(visit_children(tab, imgs, area, parent, children, k).fin) == 0,
        save_balance(visit_children(tab, imgs, area, parent, children, k).drw) == 0,
    decreases u128::MAX - parent, 0int, k,
{
    reveal_with_fuel(save_balance, 2);
    if k > 0 {
        let rest = visit_children(tab, imgs, area, parent, children, k - 1);
        lemma_visit_children_restores_transforms(tab, imgs, area, parent, children, k - 1);
        let c = children[k - 1];
        let v = if c > parent && tab.dom().contains(c) {
            visit(tab, imgs, area, c)
        } else {
            crate::model::visit_unit()
        };
        if c > parent && tab.dom().contains(c) {
            lemma_visit_restores_transforms(tab, imgs, area, c);
        }
        lemma_save_balance_concat(rest.fin, v.fin);
        lemma_save_balance_concat(rest.drw, v.drw);
    }
}

/// The image-fill round trip: a registered asset referenced by an image
/// fill yields exactly the draw command sampling that asset; a missing
/// asset yields no command at all, and no error.
pub proof fn lemma_image_fill_round_trip(
    f: crate::shapes::ImageFill,
    selrect: Rect,
    kind: Kind,
    imgs: Map<u128, ImageInfo>,
)
    ensures
        imgs.dom().contains(f.id) ==> fill_ops(Fill::Image(f), selrect, kind, imgs) == seq![
            CanvasOp::DrawImageFill {
                asset: f.id,
                fill_width: f.width,
                fill_height: f.height,
                rect: selrect,
                kind,
            },
        ],
        !imgs.dom().contains(f.id) ==> fill_ops(Fill::Image(f), selrect, kind, imgs) == Seq::<
            CanvasOp,
        >::empty(),
{
}

} // verus!
