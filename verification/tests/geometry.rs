use viewkit::geometry::{Color, Point, Rect, Size};

#[test]
fn contains_is_boundary_inclusive() {
    let r = Rect::make(10, 20, 30, 40);
    // corners, edges included
    assert!(r.contains(&Point { x: 10, y: 20 }));
    assert!(r.contains(&Point { x: 40, y: 60 }));
    assert!(r.contains(&Point { x: 10, y: 60 }));
    assert!(r.contains(&Point { x: 40, y: 20 }));
    // interior
    assert!(r.contains(&Point { x: 25, y: 35 }));
    // just outside each edge
    assert!(!r.contains(&Point { x: 9, y: 35 }));
    assert!(!r.contains(&Point { x: 41, y: 35 }));
    assert!(!r.contains(&Point { x: 25, y: 19 }));
    assert!(!r.contains(&Point { x: 25, y: 61 }));
}

#[test]
fn contains_zero_size_rect_is_its_origin_only() {
    let r = Rect::make(5, 5, 0, 0);
    assert!(r.contains(&Point { x: 5, y: 5 }));
    assert!(!r.contains(&Point { x: 6, y: 5 }));
    assert!(!r.contains(&Point { x: 4, y: 5 }));
}

#[test]
fn contains_negative_extent_contains_nothing() {
    let r = Rect::make(0, 0, -1, -1);
    assert!(!r.contains(&Point { x: 0, y: 0 }));
}

#[test]
fn contains_handles_extreme_coordinates() {
    let r = Rect::make(i32::MIN, i32::MIN, i32::MAX, i32::MAX);
    assert!(r.contains(&Point { x: -1, y: -1 }));
    assert!(!r.contains(&Point { x: 0, y: 0 }));
}

#[test]
fn rect_constructors() {
    let r = Rect::make(1, 2, 3, 4);
    assert_eq!(r.origin, Point { x: 1, y: 2 });
    assert_eq!(r.size, Size { width: 3, height: 4 });
    let f = Rect::from_size(Size { width: 7, height: 8 });
    assert_eq!(f.origin, Point { x: 0, y: 0 });
    assert_eq!(f.size, Size { width: 7, height: 8 });
    let z = Rect::new();
    assert_eq!(z, Rect::make(0, 0, 0, 0));
}

#[test]
fn point_translation_in_place() {
    let mut p = Point { x: 3, y: 4 };
    p.move_by(Point { x: 10, y: -2 });
    assert_eq!(p, Point { x: 13, y: 2 });
    p.move_back(Point { x: 13, y: 2 });
    assert_eq!(p, Point::new());
}

#[test]
fn color_is_a_plain_value() {
    assert_eq!(Color::Blue, Color::Blue);
    assert_ne!(Color::Blue, Color::Green);
    assert_eq!(Color::Default, Color::Default);
}
