use explora::geometry::{Point, Rectangle};

#[test]
fn rectangle_new_keeps_its_arguments() {
    let r = Rectangle::new(1, 2, 3, 4);
    assert_eq!(r, Rectangle { x: 1, y: 2, width: 3, height: 4 });
}

#[test]
fn contains_includes_top_left_corner() {
    let r = Rectangle::new(0, 20, 100, 50);
    assert!(r.contains(Point { x: 0, y: 20 }));
}

#[test]
fn contains_excludes_right_and_bottom_edges() {
    let r = Rectangle::new(0, 20, 100, 50);
    assert!(r.contains(Point { x: 99, y: 69 }));
    assert!(!r.contains(Point { x: 100, y: 69 }));
    assert!(!r.contains(Point { x: 99, y: 70 }));
    assert!(!r.contains(Point { x: 100, y: 70 }));
}

#[test]
fn contains_rejects_points_before_the_origin() {
    let r = Rectangle::new(0, 20, 100, 50);
    assert!(!r.contains(Point { x: -1, y: 30 }));
    assert!(!r.contains(Point { x: 10, y: 19 }));
}

#[test]
fn degenerate_rectangle_contains_nothing() {
    let r = Rectangle::new(5, 5, 0, 10);
    assert!(!r.contains(Point { x: 5, y: 5 }));
    let r = Rectangle::new(5, 5, 10, 0);
    assert!(!r.contains(Point { x: 5, y: 5 }));
    let r = Rectangle::new(5, 5, -3, 10);
    assert!(!r.contains(Point { x: 4, y: 6 }));
}

#[test]
fn contains_works_at_the_ends_of_the_range() {
    let r = Rectangle::new(i32::MAX - 1, i32::MAX - 1, i32::MAX, i32::MAX);
    assert!(r.contains(Point { x: i32::MAX, y: i32::MAX }));
    let r = Rectangle::new(i32::MIN, i32::MIN, 1, 1);
    assert!(r.contains(Point { x: i32::MIN, y: i32::MIN }));
    assert!(!r.contains(Point { x: i32::MIN + 1, y: i32::MIN }));
}
