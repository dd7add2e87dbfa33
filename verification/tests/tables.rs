use render_core::images::{IdTable, ImageInfo};
use render_core::math::Rect;
use render_core::shapes::{check_forest, BlendMode, Kind, Shape, ShapeTable};

fn shape_with_children(children: Vec<u128>) -> Shape {
    let selrect = Rect::from_ltrb(0, 0, 10, 10);
    Shape {
        selrect,
        children,
        translate_x: 0,
        translate_y: 0,
        scale_x: 1000,
        scale_y: 1000,
        skew_x: 0,
        skew_y: 0,
        fills: Vec::new(),
        opacity: 1000,
        blend_mode: BlendMode::Normal,
        hidden: false,
        kind: Kind::Rect(selrect),
    }
}

#[test]
fn id_table_insert_get_and_overwrite() {
    let mut t: IdTable<ImageInfo> = IdTable::new();
    assert!(!t.contains_key(1));
    assert!(t.get(1).is_none());
    t.insert(1, ImageInfo { width: 4, height: 5 });
    t.insert(2, ImageInfo { width: 6, height: 7 });
    assert!(t.contains_key(1));
    assert_eq!(t.get(1), Some(&ImageInfo { width: 4, height: 5 }));
    assert_eq!(t.get(2), Some(&ImageInfo { width: 6, height: 7 }));
    t.insert(1, ImageInfo { width: 40, height: 50 });
    assert_eq!(t.get(1), Some(&ImageInfo { width: 40, height: 50 }));
    assert!(t.get(3).is_none());
}

#[test]
fn check_forest_accepts_ascending_children() {
    let mut tab: ShapeTable = ShapeTable::new();
    tab.insert(0, shape_with_children(vec![1, 2]));
    tab.insert(1, shape_with_children(vec![]));
    tab.insert(2, shape_with_children(vec![3]));
    tab.insert(3, shape_with_children(vec![]));
    assert!(check_forest(&tab));
}

#[test]
fn check_forest_rejects_unresolved_child() {
    let mut tab: ShapeTable = ShapeTable::new();
    tab.insert(0, shape_with_children(vec![1]));
    assert!(!check_forest(&tab));
}

#[test]
fn check_forest_rejects_descending_child_id() {
    let mut tab: ShapeTable = ShapeTable::new();
    tab.insert(0, shape_with_children(vec![2]));
    tab.insert(2, shape_with_children(vec![1]));
    tab.insert(1, shape_with_children(vec![]));
    assert!(!check_forest(&tab));
}

#[test]
fn check_forest_rejects_out_of_budget_shape() {
    let mut tab: ShapeTable = ShapeTable::new();
    let mut s = shape_with_children(vec![]);
    s.opacity = 1001;
    tab.insert(0, s);
    assert!(!check_forest(&tab));
}
