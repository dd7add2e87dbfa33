use render_core::math::Rect;
use render_core::view::Viewbox;

#[test]
fn rect_contains_basic() {
    let outer = Rect::from_ltrb(0, 0, 800, 600);
    let inner = Rect::from_ltrb(100, 100, 300, 200);
    assert!(outer.contains(&inner));
    assert!(!inner.contains(&outer));
}

#[test]
fn rect_contains_requires_nonempty() {
    let outer = Rect::from_ltrb(0, 0, 800, 600);
    let empty = Rect::from_ltrb(100, 100, 100, 100);
    assert!(!outer.contains(&empty));
    assert!(!empty.contains(&outer));
    assert!(empty.is_empty());
}

#[test]
fn rect_contains_touching_edges() {
    let outer = Rect::from_ltrb(0, 0, 800, 600);
    let same = Rect::from_ltrb(0, 0, 800, 600);
    assert!(outer.contains(&same));
}

#[test]
fn rect_intersects_basic() {
    let a = Rect::from_ltrb(0, 0, 100, 100);
    let b = Rect::from_ltrb(50, 50, 150, 150);
    let c = Rect::from_ltrb(100, 0, 200, 100);
    let d = Rect::from_ltrb(200, 200, 300, 300);
    assert!(a.intersects(&b));
    assert!(b.intersects(&a));
    // sharing only an edge is not an intersection of positive area
    assert!(!a.intersects(&c));
    assert!(!a.intersects(&d));
}

#[test]
fn rect_center_truncates_toward_zero() {
    let r = Rect::from_ltrb(0, 0, 101, 101);
    assert_eq!(r.center(), (50, 50));
    let n = Rect::from_ltrb(-101, -101, 0, 0);
    assert_eq!(n.center(), (-50, -50));
}

#[test]
fn viewbox_new_defaults() {
    let vb = Viewbox::new(800, 600);
    assert_eq!(vb.width, 800);
    assert_eq!(vb.height, 600);
    assert_eq!(vb.zoom, 1000);
    assert_eq!(vb.pan_x, 0);
    assert_eq!(vb.pan_y, 0);
    assert_eq!(vb.area, Rect::from_ltrb(0, 0, 800, 600));
}

#[test]
fn viewbox_zoom_shrinks_area() {
    let mut vb = Viewbox::new(800, 600);
    vb.set_zoom(2000);
    assert_eq!(vb.area, Rect::from_ltrb(0, 0, 400, 300));
    vb.set_zoom(100);
    assert_eq!(vb.area, Rect::from_ltrb(0, 0, 8000, 6000));
}

#[test]
fn viewbox_zoom_division_truncates() {
    let mut vb = Viewbox::new(800, 600);
    vb.set_zoom(3000);
    // 800 * 1000 / 3000 and 600 * 1000 / 3000, truncated
    assert_eq!(vb.area, Rect::from_ltrb(0, 0, 266, 200));
}

#[test]
fn viewbox_pan_shifts_area() {
    let mut vb = Viewbox::new(800, 600);
    vb.set_pan(-50, -70);
    assert_eq!(vb.area, Rect::from_ltrb(50, 70, 850, 670));
}

#[test]
fn viewbox_set_wh_keeps_zoom_and_pan() {
    let mut vb = Viewbox::new(800, 600);
    vb.set_zoom(2000);
    vb.set_pan(-10, -20);
    vb.set_wh(400, 200);
    assert_eq!(vb.zoom, 2000);
    assert_eq!(vb.pan_x, -10);
    assert_eq!(vb.area, Rect::from_ltrb(10, 20, 210, 120));
}
