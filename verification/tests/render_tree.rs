use render_core::images::ImageInfo;
use render_core::math::Rect;
use render_core::ops::{CanvasOp, Matrix, SourceSurface};
use render_core::shapes::{BlendMode, Fill, ImageFill, Kind, PathRef, Shape, ShapeTable};
use render_core::state::RenderState;

fn plain_shape(selrect: Rect) -> Shape {
    Shape {
        selrect,
        children: Vec::new(),
        translate_x: 0,
        translate_y: 0,
        scale_x: 1000,
        scale_y: 1000,
        skew_x: 0,
        skew_y: 0,
        fills: Vec::new(),
        opacity: 1000,
        blend_mode: BlendMode::Normal,
        hidden: false,
        kind: Kind::Rect(selrect),
    }
}

fn forest(children_of_root: Vec<u128>, shapes: Vec<(u128, Shape)>) -> ShapeTable {
    let mut tab = ShapeTable::new();
    let mut root = plain_shape(Rect::from_ltrb(0, 0, 800, 600));
    root.children = children_of_root;
    tab.insert(0, root);
    for (id, s) in shapes {
        tab.insert(id, s);
    }
    tab
}

#[test]
fn render_all_draws_one_rect_child() {
    let mut child = plain_shape(Rect::from_ltrb(100, 100, 300, 200));
    child.fills = vec![Fill::Solid(0xff112233)];
    let tab = forest(vec![1], vec![(1, child)]);
    let mut st = RenderState::new(800, 600);
    st.render_all(&tab, false);

    let ident = Matrix { a: 1000, b: 0, c: 0, d: 0, e: 1000, f: 0 };
    assert_eq!(
        st.drawing_surface.ops,
        vec![
            CanvasOp::Clear,
            CanvasOp::ResetMatrix,
            CanvasOp::Scale { sx: 1000, sy: 1000 },
            CanvasOp::Translate { dx: 0, dy: 0 },
            CanvasOp::Save,
            CanvasOp::Save,
            CanvasOp::Concat { m: ident },
            CanvasOp::DrawRect { rect: Rect::from_ltrb(100, 100, 300, 200), color: 0xff112233 },
            CanvasOp::Clear,
            CanvasOp::Restore,
            CanvasOp::Restore,
        ]
    );
    assert_eq!(
        st.final_surface.ops,
        vec![
            CanvasOp::Clear,
            CanvasOp::ResetMatrix,
            CanvasOp::Save,
            CanvasOp::Save,
            CanvasOp::DrawSurface {
                source: SourceSurface::Drawing,
                opacity: 1000,
                blend: BlendMode::Normal,
            },
            CanvasOp::Restore,
            CanvasOp::Restore,
        ]
    );
    // the child lies fully inside the viewbox: the cached frame is complete
    let cached = st.cached_surface_image.expect("cache must be created on first render");
    assert!(cached.has_all_shapes);
    assert_eq!(cached.image.id, 0);
    assert_eq!(st.flush_count, 1);
}

#[test]
fn fills_are_drawn_back_to_front() {
    let mut child = plain_shape(Rect::from_ltrb(0, 0, 10, 10));
    child.fills = vec![Fill::Solid(1), Fill::Solid(2)];
    let tab = forest(vec![1], vec![(1, child)]);
    let mut st = RenderState::new(800, 600);
    st.render_all(&tab, false);
    let draws: Vec<u32> = st
        .drawing_surface
        .ops
        .iter()
        .filter_map(|op| match op {
            CanvasOp::DrawRect { color, .. } => Some(*color),
            _ => None,
        })
        .collect();
    // declared front-to-back, drawn back-to-front: last fill first
    assert_eq!(draws, vec![2, 1]);
}

#[test]
fn transform_is_pivoted_at_rect_center() {
    let mut child = plain_shape(Rect::from_ltrb(0, 0, 100, 100));
    child.scale_x = 2000;
    child.scale_y = 2000;
    child.translate_x = 10;
    child.translate_y = 20;
    let tab = forest(vec![1], vec![(1, child)]);
    let mut st = RenderState::new(800, 600);
    st.render_all(&tab, false);
    let m = st
        .drawing_surface
        .ops
        .iter()
        .find_map(|op| match op {
            CanvasOp::Concat { m } => Some(*m),
            _ => None,
        })
        .expect("a concat must be issued for the child");
    // center (50, 50); c = 10 + 50 - 2*50 = -40, f = 20 + 50 - 2*50 = -30
    assert_eq!(m, Matrix { a: 2000, b: 0, c: -40, d: 0, e: 2000, f: -30 });
}

#[test]
fn hidden_shape_is_culled_and_marked_excluded() {
    let mut child = plain_shape(Rect::from_ltrb(100, 100, 300, 200));
    child.fills = vec![Fill::Solid(5)];
    child.hidden = true;
    let tab = forest(vec![1], vec![(1, child)]);
    let mut st = RenderState::new(800, 600);
    st.render_all(&tab, false);
    // no geometry of the hidden shape is drawn
    assert!(!st.drawing_surface.ops.iter().any(|op| matches!(op, CanvasOp::DrawRect { .. })));
    assert!(!st.final_surface.ops.iter().any(|op| matches!(op, CanvasOp::DrawSurface { .. })));
    // it is marked excluded on the debug overlay, scaled to one fifth
    assert_eq!(
        st.debug_surface.ops,
        vec![
            CanvasOp::Clear,
            CanvasOp::ResetMatrix,
            CanvasOp::DebugShapeRect {
                rect: Rect::from_ltrb(120, 120, 160, 140),
                included: false,
            },
        ]
    );
}

#[test]
fn culled_subtree_is_not_descended() {
    let mut child = plain_shape(Rect::from_ltrb(2000, 2000, 2500, 2400));
    child.children = vec![2];
    let mut grandchild = plain_shape(Rect::from_ltrb(100, 100, 200, 200));
    grandchild.fills = vec![Fill::Solid(9)];
    let tab = forest(vec![1], vec![(1, child), (2, grandchild)]);
    let mut st = RenderState::new(800, 600);
    st.render_all(&tab, false);
    // the parent is outside the visible area: the grandchild inside the
    // view is dropped with it, and only one (excluded) debug mark appears
    assert!(!st.drawing_surface.ops.iter().any(|op| matches!(op, CanvasOp::DrawRect { .. })));
    let marks: Vec<bool> = st
        .debug_surface
        .ops
        .iter()
        .filter_map(|op| match op {
            CanvasOp::DebugShapeRect { included, .. } => Some(*included),
            _ => None,
        })
        .collect();
    assert_eq!(marks, vec![false]);
    // a culled, not-contained shape makes the render incomplete
    assert!(!st.cached_surface_image.unwrap().has_all_shapes);
}

#[test]
fn visible_shape_is_marked_included() {
    let mut child = plain_shape(Rect::from_ltrb(-50, -50, 100, 100));
    child.fills = vec![Fill::Solid(3)];
    let tab = forest(vec![1], vec![(1, child)]);
    let mut st = RenderState::new(800, 600);
    st.render_all(&tab, false);
    let marks: Vec<bool> = st
        .debug_surface
        .ops
        .iter()
        .filter_map(|op| match op {
            CanvasOp::DebugShapeRect { included, .. } => Some(*included),
            _ => None,
        })
        .collect();
    assert_eq!(marks, vec![true]);
    // partially outside: drawn, but the render is not complete
    assert!(!st.cached_surface_image.unwrap().has_all_shapes);
}

#[test]
fn image_fill_samples_registered_asset() {
    let mut child = plain_shape(Rect::from_ltrb(100, 100, 300, 200));
    child.fills = vec![Fill::Image(ImageFill { id: 42, width: 64, height: 32 })];
    let tab = forest(vec![1], vec![(1, child)]);
    let mut st = RenderState::new(800, 600);
    st.add_image(42, ImageInfo { width: 64, height: 32 });
    st.render_all(&tab, false);
    let sampled: Vec<u128> = st
        .drawing_surface
        .ops
        .iter()
        .filter_map(|op| match op {
            CanvasOp::DrawImageFill { asset, .. } => Some(*asset),
            _ => None,
        })
        .collect();
    assert_eq!(sampled, vec![42]);
}

#[test]
fn missing_image_asset_skips_fill_without_error() {
    let mut child = plain_shape(Rect::from_ltrb(100, 100, 300, 200));
    child.fills = vec![Fill::Image(ImageFill { id: 42, width: 64, height: 32 })];
    let tab = forest(vec![1], vec![(1, child)]);
    let mut st = RenderState::new(800, 600);
    st.render_all(&tab, false);
    // the frame renders, the fill layer is simply omitted
    assert!(!st.drawing_surface.ops.iter().any(|op| matches!(op, CanvasOp::DrawImageFill { .. })));
    // the composite of the shape still happens
    assert!(st.final_surface.ops.iter().any(|op| matches!(op, CanvasOp::DrawSurface { .. })));
    assert_eq!(st.flush_count, 1);
}

#[test]
fn path_kind_draws_path_with_fill_paint() {
    let mut child = plain_shape(Rect::from_ltrb(0, 0, 50, 50));
    child.kind = Kind::Path(PathRef { geometry: 77 });
    child.fills = vec![Fill::Solid(0xff00ff00)];
    let tab = forest(vec![1], vec![(1, child)]);
    let mut st = RenderState::new(800, 600);
    st.render_all(&tab, false);
    assert!(st.drawing_surface.ops.iter().any(|op| matches!(
        op,
        CanvasOp::DrawPath { geometry: 77, color: 0xff00ff00 }
    )));
}

#[test]
fn debug_overlay_composited_when_visible() {
    let mut child = plain_shape(Rect::from_ltrb(100, 100, 300, 200));
    child.fills = vec![Fill::Solid(1)];
    let tab = forest(vec![1], vec![(1, child)]);
    let mut st = RenderState::new(800, 600);
    st.set_debug_flags(1);
    st.render_all(&tab, false);
    // the scaled viewbox outline lands on the debug surface
    assert!(st.debug_surface.ops.iter().any(|op| matches!(
        op,
        CanvasOp::DebugViewRect { rect } if *rect == Rect::from_ltrb(100, 100, 260, 220)
    )));
    // and the debug surface is composited onto the final surface
    assert!(st.final_surface.ops.iter().any(|op| matches!(
        op,
        CanvasOp::DrawSurface { source: SourceSurface::Debug, .. }
    )));
}

#[test]
fn transform_saves_and_restores_balance() {
    // a three-level forest with one culled branch: every save is closed by
    // a restore on both the final and the drawing surface
    let mut a = plain_shape(Rect::from_ltrb(0, 0, 400, 300));
    a.children = vec![2, 3];
    a.fills = vec![Fill::Solid(1)];
    let mut b = plain_shape(Rect::from_ltrb(10, 10, 50, 50));
    b.fills = vec![Fill::Solid(2)];
    let culled = plain_shape(Rect::from_ltrb(5000, 5000, 5100, 5100));
    let tab = forest(vec![1], vec![(1, a), (2, b), (3, culled)]);
    let mut st = RenderState::new(800, 600);
    st.render_all(&tab, false);
    for ops in [&st.final_surface.ops, &st.drawing_surface.ops] {
        let saves = ops.iter().filter(|op| matches!(op, CanvasOp::Save)).count();
        let restores = ops.iter().filter(|op| matches!(op, CanvasOp::Restore)).count();
        assert_eq!(saves, restores);
        assert_eq!(saves, 3); // root, shape a, shape b; the culled shape pushes nothing
    }
}

#[test]
fn cache_kept_unless_regeneration_requested() {
    let mut child = plain_shape(Rect::from_ltrb(100, 100, 300, 200));
    child.fills = vec![Fill::Solid(1)];
    let tab = forest(vec![1], vec![(1, child)]);
    let mut st = RenderState::new(800, 600);
    st.render_all(&tab, false);
    assert_eq!(st.cached_surface_image.unwrap().image.id, 0);
    // without the flag, an existing cache is kept
    st.render_all(&tab, false);
    assert_eq!(st.cached_surface_image.unwrap().image.id, 0);
    // with the flag, it is replaced wholesale
    st.render_all(&tab, true);
    assert_eq!(st.cached_surface_image.unwrap().image.id, 1);
}
