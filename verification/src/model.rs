//! The mathematical model of a render pass: specification functions giving,
//! for each entry point, exactly which draw commands it appends to each
//! surface. The executable render functions are proved against these.

use vstd::prelude::*;

use crate::cache::CachedSurfaceImage;
use crate::images::ImageInfo;
use crate::math::{tdiv, Rect, MILLI};
use crate::ops::{CanvasOp, Matrix, SourceSurface};
use crate::options::RenderOptions;
use crate::shapes::{BlendMode, Fill, Kind, Shape, ROOT_ID};
use crate::view::Viewbox;

verus! {

/// The composed affine transform of a shape: its scale/skew/translate
/// matrix, pivoted at the center of its bounding rectangle so that scale and
/// skew never displace the shape's visual center.
pub open spec fn shape_matrix(s: Shape) -> Matrix {
    let cx = s.selrect.spec_center_x();
    let cy = s.selrect.spec_center_y();
    Matrix {
        a: s.scale_x,
        b: s.skew_x,
        c: (s.translate_x + cx - tdiv(s.scale_x * cx + s.skew_x * cy, MILLI as int)) as i64,
        d: s.skew_y,
        e: s.scale_y,
        f: (s.translate_y + cy - tdiv(s.skew_y * cx + s.scale_y * cy, MILLI as int)) as i64,
    }
}

/// The debug overlay draws rectangles at one fifth scale, offset to
/// `(100, 100)`.
pub open spec fn debug_scaled(r: Rect) -> Rect {
    Rect {
        x1: (100 + tdiv(r.x1 as int, 5)) as i64,
        y1: (100 + tdiv(r.y1 as int, 5)) as i64,
        x2: (100 + tdiv(r.x1 as int, 5) + tdiv(r.x2 - r.x1, 5)) as i64,
        y2: (100 + tdiv(r.y1 as int, 5) + tdiv(r.y2 - r.y1, 5)) as i64,
    }
}

/// The commands one fill layer appends to the drawing surface. An image
/// fill whose asset is not in the table draws nothing; a solid fill draws
/// the shape's geometry.
pub open spec fn fill_ops(fill: Fill, selrect: Rect, kind: Kind, imgs: Map<u128, ImageInfo>) -> Seq<
    CanvasOp,
> {
    match fill {
        Fill::Image(f) => if imgs.dom().contains(f.id) {
            seq![
                CanvasOp::DrawImageFill {
                    asset: f.id,
                    fill_width: f.width,
                    fill_height: f.height,
                    rect: selrect,
                    kind,
                },
            ]
        } else {
            Seq::empty()
        },
        Fill::Solid(color) => match kind {
            Kind::Rect(r) => seq![CanvasOp::DrawRect { rect: r, color }],
            Kind::Path(p) => seq![CanvasOp::DrawPath { geometry: p.geometry, color }],
        },
    }
}

/// The commands of the fills `fills[i..]`, drawn back-to-front: the last
/// declared fill first, `fills[i]` last.
pub open spec fn fills_ops_from(
    fills: Seq<Fill>,
    selrect: Rect,
    kind: Kind,
    imgs: Map<u128, ImageInfo>,
    i: int,
) -> Seq<CanvasOp>
    decreases fills.len() - i,
{
    if i < 0 || i >= fills.len() {
        Seq::empty()
    } else {
        fills_ops_from(fills, selrect, kind, imgs, i + 1) + fill_ops(fills[i], selrect, kind, imgs)
    }
}

/// What rendering one shape's own geometry appends to the drawing surface:
/// its composed transform, its fills back-to-front, then the scratch clear
/// after the composite.
pub open spec fn shape_drw_ops(s: Shape, imgs: Map<u128, ImageInfo>) -> Seq<CanvasOp> {
    seq![CanvasOp::Concat { m: shape_matrix(s) }] + fills_ops_from(
        s.fills@,
        s.selrect,
        s.kind,
        imgs,
        0,
    ) + seq![CanvasOp::Clear]
}

/// The composite of the scratch drawing surface onto the final surface,
/// through the shape's opacity and blend mode.
pub open spec fn shape_fin_op(s: Shape) -> CanvasOp {
    CanvasOp::DrawSurface { source: SourceSurface::Drawing, opacity: s.opacity, blend: s.blend_mode }
}

/// What one subtree visit appends to the final, drawing and debug surfaces,
/// and whether every visited shape was fully contained in the visible area.
pub ghost struct VisitOut {
    pub fin: Seq<CanvasOp>,
    pub drw: Seq<CanvasOp>,
    pub dbg: Seq<CanvasOp>,
    pub complete: bool,
}

/// The visit that draws nothing and reports completeness.
pub open spec fn visit_unit() -> VisitOut {
    VisitOut { fin: Seq::empty(), drw: Seq::empty(), dbg: Seq::empty(), complete: true }
}

/// The recursive shape-tree walk, per node `id`.
///
/// A non-root shape that is hidden or does not intersect the visible area
/// is culled: it contributes one "excluded" debug rectangle, draws nothing,
/// does not visit its children, and reports its own containment (false for
/// a non-intersecting shape). Otherwise the shape contributes its own
/// geometry (unless it is the root), visits its children in order inside a
/// transform save/restore pair, and is complete iff it is contained and all
/// its children are.
pub open spec fn visit(
    tab: Map<u128, Shape>,
    imgs: Map<u128, ImageInfo>,
    area: Rect,
    id: u128,
) -> VisitOut
    decreases u128::MAX - id, 1int, 0int,
{
    let s = tab[id];
    let contained = area.spec_contains(s.selrect);
    if id != ROOT_ID && (!s.selrect.spec_intersects(area) || s.hidden) {
        VisitOut {
            fin: Seq::empty(),
            drw: Seq::empty(),
            dbg: seq![
                CanvasOp::DebugShapeRect { rect: debug_scaled(s.selrect), included: false },
            ],
            complete: contained,
        }
    } else {
        let ch = visit_children(tab, imgs, area, id, s.children@, s.children@.len() as int);
        if id == ROOT_ID {
            VisitOut {
                fin: seq![CanvasOp::Save] + ch.fin + seq![CanvasOp::Restore],
                drw: seq![CanvasOp::Save] + ch.drw + seq![CanvasOp::Restore],
                dbg: ch.dbg,
                complete: contained && ch.complete,
            }
        } else {
            VisitOut {
                fin: seq![CanvasOp::Save, shape_fin_op(s)] + ch.fin + seq![CanvasOp::Restore],
                drw: seq![CanvasOp::Save] + shape_drw_ops(s, imgs) + ch.drw + seq![
                    CanvasOp::Restore,
                ],
                dbg: seq![
                    CanvasOp::DebugShapeRect { rect: debug_scaled(s.selrect), included: true },
                ] + ch.dbg,
                complete: contained && ch.complete,
            }
        }
    }
}

/// The combined visits of the first `k` children of `parent`, in order.
/// A child id that does not resolve or does not ascend contributes nothing;
/// a well-formed forest has no such child.
pub open spec fn visit_children(
    tab: Map<u128, Shape>,
    imgs: Map<u128, ImageInfo>,
    area: Rect,
    parent: u128,
    children: Seq<u128>,
    k: int,
) -> VisitOut
    decreases u128::MAX - parent, 0int, k,
{
    if k <= 0 {
        visit_unit()
    } else {
        let rest = visit_children(tab, imgs, area, parent, children, k - 1);
        let c = children[k - 1];
        let v = if c > parent && tab.dom().contains(c) {
            visit(tab, imgs, area, c)
        } else {
            visit_unit()
        };
        VisitOut {
            fin: rest.fin + v.fin,
            drw: rest.drw + v.drw,
            dbg: rest.dbg + v.dbg,
            complete: rest.complete && v.complete,
        }
    }
}

/// The composite scale a full render applies to the drawing surface:
/// zoom times device-pixel ratio, in thousandths.
pub open spec fn composite_scale(vb: Viewbox, opts: RenderOptions) -> i64 {
    ((vb.zoom * opts.spec_dpr()) / (MILLI as int)) as i64
}

/// The composite of the debug overlay onto the final surface, through a
/// default paint.
pub open spec fn debug_composite_op() -> CanvasOp {
    CanvasOp::DrawSurface { source: SourceSurface::Debug, opacity: MILLI, blend: BlendMode::Normal }
}

/// What a full render appends to the drawing surface.
pub open spec fn render_all_drw_ops(
    vb: Viewbox,
    opts: RenderOptions,
    tab: Map<u128, Shape>,
    imgs: Map<u128, ImageInfo>,
) -> Seq<CanvasOp> {
    seq![
        CanvasOp::Clear,
        CanvasOp::ResetMatrix,
        CanvasOp::Scale { sx: composite_scale(vb, opts), sy: composite_scale(vb, opts) },
        CanvasOp::Translate { dx: vb.pan_x, dy: vb.pan_y },
    ] + visit(tab, imgs, vb.area, ROOT_ID).drw
}

/// What a full render appends to the final surface.
pub open spec fn render_all_fin_ops(
    vb: Viewbox,
    opts: RenderOptions,
    tab: Map<u128, Shape>,
    imgs: Map<u128, ImageInfo>,
) -> Seq<CanvasOp> {
    seq![CanvasOp::Clear, CanvasOp::ResetMatrix] + visit(tab, imgs, vb.area, ROOT_ID).fin + (
    if opts.spec_debug_visible() {
        seq![debug_composite_op()]
    } else {
        Seq::empty()
    })
}

/// What a full render appends to the debug surface.
pub open spec fn render_all_dbg_ops(
    vb: Viewbox,
    opts: RenderOptions,
    tab: Map<u128, Shape>,
    imgs: Map<u128, ImageInfo>,
) -> Seq<CanvasOp> {
    seq![CanvasOp::Clear, CanvasOp::ResetMatrix] + visit(tab, imgs, vb.area, ROOT_ID).dbg + (
    if opts.spec_debug_visible() {
        seq![CanvasOp::DebugViewRect { rect: debug_scaled(vb.area) }]
    } else {
        Seq::empty()
    })
}

/// The scale a cached redraw applies: the ratio of the new zoom to the
/// cached zoom, in thousandths.
pub open spec fn nav_scale(vb: Viewbox, c: CachedSurfaceImage) -> i64 {
    ((vb.zoom * (MILLI as int)) / (c.viewbox.zoom as int)) as i64
}

/// The horizontal offset a cached redraw applies: the pan delta scaled by
/// the cached zoom and the device-pixel ratio.
pub open spec fn nav_dx(vb: Viewbox, opts: RenderOptions, c: CachedSurfaceImage) -> i64 {
    tdiv(
        tdiv(c.viewbox.zoom * (vb.pan_x - c.viewbox.pan_x), MILLI as int) * opts.spec_dpr(),
        MILLI as int,
    ) as i64
}

/// The vertical offset a cached redraw applies.
pub open spec fn nav_dy(vb: Viewbox, opts: RenderOptions, c: CachedSurfaceImage) -> i64 {
    tdiv(
        tdiv(c.viewbox.zoom * (vb.pan_y - c.viewbox.pan_y), MILLI as int) * opts.spec_dpr(),
        MILLI as int,
    ) as i64
}

/// What a cached redraw appends to the final surface: it repositions the
/// stored snapshot under the new viewbox without touching a single shape.
pub open spec fn cache_redraw_fin_ops(
    vb: Viewbox,
    opts: RenderOptions,
    c: CachedSurfaceImage,
) -> Seq<CanvasOp> {
    seq![
        CanvasOp::Clear,
        CanvasOp::ResetMatrix,
        CanvasOp::Save,
        CanvasOp::Scale { sx: nav_scale(vb, c), sy: nav_scale(vb, c) },
        CanvasOp::Translate { dx: nav_dx(vb, opts, c), dy: nav_dy(vb, opts, c) },
        CanvasOp::DrawSnapshot { snapshot: c.image.id },
        CanvasOp::Restore,
    ]
}

} // verus!
