use chess_widgets::Rect;

#[test]
fn new_keeps_its_arguments() {
    let rect = Rect::new(3, -4, 10, 20);
    assert_eq!(rect, Rect { x: 3, y: -4, width: 10, height: 20 });
}

#[test]
fn contains_point_includes_all_four_edges() {
    let rect = Rect::new(100, 100, 600, 750);
    assert!(rect.contains_point(100, 100));
    assert!(rect.contains_point(700, 100));
    assert!(rect.contains_point(100, 850));
    assert!(rect.contains_point(700, 850));
    assert!(rect.contains_point(400, 400));
}

#[test]
fn contains_point_excludes_what_lies_beyond_an_edge() {
    let rect = Rect::new(100, 100, 600, 750);
    assert!(!rect.contains_point(99, 400));
    assert!(!rect.contains_point(701, 400));
    assert!(!rect.contains_point(400, 99));
    assert!(!rect.contains_point(400, 851));
}

#[test]
fn contains_point_near_the_largest_coordinates() {
    let rect = Rect::new(i32::MAX - 1, i32::MAX - 1, i32::MAX, i32::MAX);
    assert!(rect.contains_point(i32::MAX, i32::MAX));
    assert!(rect.contains_point(i32::MAX - 1, i32::MAX));
    assert!(!rect.contains_point(i32::MAX - 2, i32::MAX));
    assert!(!rect.contains_point(i32::MIN, i32::MIN));
}
