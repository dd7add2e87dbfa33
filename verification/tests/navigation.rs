use render_core::cache::{CachedSurfaceImage, Snapshot};
use render_core::math::Rect;
use render_core::ops::CanvasOp;
use render_core::shapes::{BlendMode, Fill, Kind, Shape, ShapeTable};
use render_core::state::RenderState;
use render_core::view::Viewbox;

fn plain_shape(selrect: Rect) -> Shape {
    Shape {
        selrect,
        children: Vec::new(),
        translate_x: 0,
        translate_y: 0,
        scale_x: 1000,
        scale_y: 1000,
        skew_x: 0,
        skew_y: 0,
        fills: Vec::new(),
        opacity: 1000,
        blend_mode: BlendMode::Normal,
        hidden: false,
        kind: Kind::Rect(selrect),
    }
}

fn forest(children_of_root: Vec<u128>, shapes: Vec<(u128, Shape)>) -> ShapeTable {
    let mut tab = ShapeTable::new();
    let mut root = plain_shape(Rect::from_ltrb(0, 0, 800, 600));
    root.children = children_of_root;
    tab.insert(0, root);
    for (id, s) in shapes {
        tab.insert(id, s);
    }
    tab
}

/// A forest whose full render is incomplete: one child inside the view,
/// one far outside (culled).
fn incomplete_forest() -> ShapeTable {
    let mut inside = plain_shape(Rect::from_ltrb(100, 100, 300, 200));
    inside.fills = vec![Fill::Solid(1)];
    let outside = plain_shape(Rect::from_ltrb(2000, 2000, 2500, 2400));
    forest(vec![1, 2], vec![(1, inside), (2, outside)])
}

#[test]
fn is_dirty_iff_area_escapes_incomplete_cache() {
    let cached_vb = Viewbox::new(800, 600);
    let c = CachedSurfaceImage {
        image: Snapshot { id: 0, width: 800, height: 600 },
        viewbox: cached_vb,
        has_all_shapes: false,
    };
    // zooming in keeps the visible area inside the cached one: not dirty
    let mut zoom_in = Viewbox::new(800, 600);
    zoom_in.set_zoom(2000);
    assert!(!c.is_dirty(&zoom_in));
    // zooming out grows the visible area beyond the cached one: dirty
    let mut zoom_out = Viewbox::new(800, 600);
    zoom_out.set_zoom(100);
    assert!(c.is_dirty(&zoom_out));
    // panning within the cached area keeps the fast path
    let mut pan_in = Viewbox::new(800, 600);
    pan_in.set_zoom(2000);
    pan_in.set_pan(-50, -50);
    assert!(!c.is_dirty(&pan_in));
    // panning out of the cached area is dirty
    let mut pan_out = Viewbox::new(800, 600);
    pan_out.set_zoom(2000);
    pan_out.set_pan(600, 0);
    assert!(c.is_dirty(&pan_out));
}

#[test]
fn complete_cache_is_never_dirty() {
    let c = CachedSurfaceImage {
        image: Snapshot { id: 0, width: 800, height: 600 },
        viewbox: Viewbox::new(800, 600),
        has_all_shapes: true,
    };
    let mut zoom_out = Viewbox::new(800, 600);
    zoom_out.set_zoom(100);
    assert!(!c.is_dirty(&zoom_out));
}

#[test]
fn navigate_without_cache_is_a_no_op() {
    let tab = incomplete_forest();
    let mut st = RenderState::new(800, 600);
    let r = st.navigate(&tab);
    assert!(r.is_ok());
    assert!(st.final_surface.ops.is_empty());
    assert_eq!(st.flush_count, 0);
    assert!(st.cached_surface_image.is_none());
}

#[test]
fn navigate_pan_within_bounds_takes_fast_path() {
    // the end-to-end scenario: 800x600 view, one root with one child rect
    // fully inside; a full render stores a complete cache, and a small pan
    // redraws from the snapshot without walking the tree
    let mut child = plain_shape(Rect::from_ltrb(100, 100, 300, 200));
    child.fills = vec![Fill::Solid(7)];
    let tab = forest(vec![1], vec![(1, child)]);
    let mut st = RenderState::new(800, 600);
    st.render_all(&tab, false);
    assert!(st.cached_surface_image.unwrap().has_all_shapes);
    let walked = st.debug_surface.ops.len();
    let fin_before = st.final_surface.ops.len();

    st.viewbox.set_pan(50, 50);
    let r = st.navigate(&tab);
    assert!(r.is_ok());
    // no new tree walk: the debug overlay saw no new shape marks
    assert_eq!(
        st.debug_surface.ops.len(),
        walked + 2, // only the clear and matrix reset of the redraw
    );
    // the final surface got exactly the cached blit
    let tail = &st.final_surface.ops[fin_before..];
    assert_eq!(tail.len(), 7);
    assert_eq!(tail[0], CanvasOp::Clear);
    assert_eq!(tail[1], CanvasOp::ResetMatrix);
    assert_eq!(tail[2], CanvasOp::Save);
    assert_eq!(tail[3], CanvasOp::Scale { sx: 1000, sy: 1000 });
    // pan delta (50, 50) at cached zoom 1.0 and ratio 1.0
    assert_eq!(tail[4], CanvasOp::Translate { dx: 50, dy: 50 });
    assert_eq!(tail[5], CanvasOp::DrawSnapshot { snapshot: 0 });
    assert_eq!(tail[6], CanvasOp::Restore);
    // the cache record is consulted, not replaced
    assert_eq!(st.cached_surface_image.unwrap().image.id, 0);
    assert_eq!(st.flush_count, 2);
}

#[test]
fn navigate_zoom_out_beyond_cache_rerenders() {
    // the dirty check fires only on an incomplete cache, so render a
    // forest with one culled shape first
    let tab = incomplete_forest();
    let mut st = RenderState::new(800, 600);
    st.render_all(&tab, false);
    assert!(!st.cached_surface_image.unwrap().has_all_shapes);

    // zoom out to 0.1: the visible area now exceeds the rendered area
    st.viewbox.set_zoom(100);
    let r = st.navigate(&tab);
    assert!(r.is_ok());
    // a full render ran: the cache was regenerated under the new viewbox
    let cached = st.cached_surface_image.unwrap();
    assert_eq!(cached.image.id, 1);
    assert_eq!(cached.viewbox.zoom, 100);
    // at 0.1 zoom both shapes fit into the 8000x6000 visible area
    assert!(cached.has_all_shapes);
    // the re-render walked the tree: new shape marks, no snapshot blit
    assert!(!st.final_surface.ops.iter().any(|op| matches!(op, CanvasOp::DrawSnapshot { .. })));
    assert_eq!(st.flush_count, 2);
}

#[test]
fn navigate_pan_within_incomplete_cache_takes_fast_path() {
    let tab = incomplete_forest();
    let mut st = RenderState::new(800, 600);
    st.render_all(&tab, false);
    assert!(!st.cached_surface_image.unwrap().has_all_shapes);

    // zoom in and pan: the visible area stays inside the cached area
    st.viewbox.set_zoom(2000);
    st.viewbox.set_pan(-50, -50);
    let r = st.navigate(&tab);
    assert!(r.is_ok());
    // fast path: the snapshot is blitted, the cache is kept
    assert!(st.final_surface.ops.iter().any(|op| matches!(op, CanvasOp::DrawSnapshot { .. })));
    assert_eq!(st.cached_surface_image.unwrap().image.id, 0);
    // zoom ratio 2.0, pan delta (-50, -50) at cached zoom 1.0
    let n = st.final_surface.ops.len();
    assert_eq!(st.final_surface.ops[n - 4], CanvasOp::Scale { sx: 2000, sy: 2000 });
    assert_eq!(st.final_surface.ops[n - 3], CanvasOp::Translate { dx: -50, dy: -50 });
}
