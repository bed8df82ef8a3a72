use r3wm::geometry::Point;
use r3wm::geometry::Quadrant;
use r3wm::geometry::Rect;

#[test]
fn quadrant_splits_at_the_centre() {
    let r = Rect::new(10, 20, 100, 50);
    assert_eq!(r.quadrant(&Point::new(10, 20)), Quadrant::TopLeft);
    assert_eq!(r.quadrant(&Point::new(59, 44)), Quadrant::TopLeft);
    assert_eq!(r.quadrant(&Point::new(60, 44)), Quadrant::TopRight);
    assert_eq!(r.quadrant(&Point::new(59, 45)), Quadrant::BottomLeft);
    assert_eq!(r.quadrant(&Point::new(60, 45)), Quadrant::BottomRight);
}

#[test]
fn quadrant_of_a_point_outside_goes_by_the_nearest_corner() {
    let r = Rect::new(0, 0, 10, 10);
    assert_eq!(r.quadrant(&Point::new(-100, -100)), Quadrant::TopLeft);
    assert_eq!(r.quadrant(&Point::new(100, -100)), Quadrant::TopRight);
    assert_eq!(r.quadrant(&Point::new(-100, 100)), Quadrant::BottomLeft);
    assert_eq!(r.quadrant(&Point::new(100, 100)), Quadrant::BottomRight);
}

#[test]
fn quadrant_at_the_limits_of_the_fields() {
    let r = Rect { x: i32::MIN, y: i32::MAX, w: u32::MAX, h: 0 };
    assert_eq!(r.quadrant(&Point::new(i32::MAX, i32::MIN)), Quadrant::TopRight);
    assert_eq!(r.quadrant(&Point::new(i32::MIN, i32::MAX)), Quadrant::BottomLeft);
}

#[test]
fn new_rect_is_never_degenerate() {
    assert_eq!(Rect::new(3, 4, 0, 0), Rect { x: 3, y: 4, w: 1, h: 1 });
    assert_eq!(Rect::new(3, 4, 7, 0), Rect { x: 3, y: 4, w: 7, h: 1 });
    assert_eq!(Rect::new(-3, -4, 30, 30), Rect { x: -3, y: -4, w: 30, h: 30 });
}

#[test]
fn from_wire_widens_without_change() {
    assert_eq!(Rect::from_wire(-32768, 32767, 65535, 0), Rect { x: -32768, y: 32767, w: 65535, h: 0 });
    assert_eq!(Point::from_wire(-32768, 32767), Point { x: -32768, y: 32767 });
}

#[test]
fn contains_excludes_right_and_bottom_edge() {
    let r = Rect::new(10, 20, 30, 40);
    assert!(r.contains(&Point::new(10, 20)));
    assert!(r.contains(&Point::new(39, 59)));
    assert!(!r.contains(&Point::new(40, 59)));
    assert!(!r.contains(&Point::new(39, 60)));
    assert!(!r.contains(&Point::new(9, 20)));
    assert!(!r.contains(&Point::new(10, 19)));
}

#[test]
fn contains_at_the_limits_of_the_fields() {
    let r = Rect { x: i32::MAX, y: i32::MAX, w: u32::MAX, h: u32::MAX };
    assert!(r.contains(&Point::new(i32::MAX, i32::MAX)));
    assert!(!r.contains(&Point::new(i32::MIN, i32::MAX)));
}

#[test]
fn delta_is_vector_subtraction() {
    let d = Point::new(130, 120).delta_from(&Point::new(110, 125));
    assert_eq!(d, Point { x: 20, y: -5 });
    assert_eq!(Point::new(1, 2).offset(&d), Point { x: 21, y: -3 });
}

#[test]
fn origin_is_the_top_left_corner() {
    let r = Rect::new(100, -100, 200, 150);
    assert_eq!(r.origin(), Point { x: 100, y: -100 });
}

#[test]
fn resize_top_left_shifts_origin_and_shrinks() {
    let r = Rect::new(100, 100, 200, 150);
    let out = r.resized(Quadrant::TopLeft, &Point::new(20, 10));
    assert_eq!(out, Rect { x: 120, y: 110, w: 180, h: 140 });
    // The bottom-right corner has not moved.
    assert_eq!(out.x + out.w as i32, 300);
    assert_eq!(out.y + out.h as i32, 250);
}

#[test]
fn resize_top_right() {
    let r = Rect::new(100, 100, 200, 150);
    let out = r.resized(Quadrant::TopRight, &Point::new(20, 10));
    assert_eq!(out, Rect { x: 100, y: 110, w: 220, h: 140 });
}

#[test]
fn resize_bottom_left() {
    let r = Rect::new(100, 100, 200, 150);
    let out = r.resized(Quadrant::BottomLeft, &Point::new(20, 10));
    assert_eq!(out, Rect { x: 120, y: 100, w: 180, h: 160 });
}

#[test]
fn resize_bottom_right() {
    let r = Rect::new(100, 100, 200, 150);
    let out = r.resized(Quadrant::BottomRight, &Point::new(-20, -10));
    assert_eq!(out, Rect { x: 100, y: 100, w: 180, h: 140 });
}

#[test]
fn resize_is_floored_at_one() {
    let r = Rect::new(100, 100, 200, 150);
    assert_eq!(r.resized(Quadrant::TopLeft, &Point::new(200, 150)), Rect { x: 300, y: 250, w: 1, h: 1 });
    assert_eq!(r.resized(Quadrant::TopLeft, &Point::new(250, 10)), Rect { x: 350, y: 110, w: 1, h: 140 });
    assert_eq!(r.resized(Quadrant::BottomRight, &Point::new(-500, -149)), Rect { x: 100, y: 100, w: 1, h: 1 });
    assert_eq!(r.resized(Quadrant::TopRight, &Point::new(-199, 151)), Rect { x: 100, y: 251, w: 1, h: 1 });
}

#[test]
fn resize_by_nothing_changes_nothing() {
    let r = Rect::new(-5, 7, 30, 30);
    assert_eq!(r.resized(Quadrant::TopLeft, &Point::new(0, 0)), r);
    assert_eq!(r.resized(Quadrant::BottomRight, &Point::new(0, 0)), r);
}
