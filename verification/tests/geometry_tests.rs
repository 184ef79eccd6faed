use sensor_kit::geometry::frac;
use sensor_kit::geometry::half_diff;
use sensor_kit::geometry::Circle;
use sensor_kit::geometry::Point;
use sensor_kit::geometry::Rect;
use sensor_kit::geometry::Size;

fn rect(x: i32, y: i32, w: u32, h: u32) -> Rect {
    Rect::new(Point::new(x, y), Size::new(w, h))
}

#[test]
fn centering_shift() {
    assert_eq!(half_diff(100, 40), 30);
    assert_eq!(half_diff(40, 100), -30);
    assert_eq!(half_diff(10, 10), 0);
    assert_eq!(half_diff(11, 10), 0);
    assert_eq!(half_diff(10, 7), 1);
}

#[test]
fn rectangle_center() {
    assert_eq!(rect(0, 0, 128, 64).center(), Point::new(63, 31));
    assert_eq!(rect(10, 20, 1, 1).center(), Point::new(10, 20));
    assert_eq!(rect(10, 20, 0, 0).center(), Point::new(10, 20));
}

#[test]
fn offset_shrinks_and_grows() {
    assert_eq!(rect(10, 10, 20, 20).offset(-2), rect(12, 12, 16, 16));
    assert_eq!(rect(10, 10, 20, 20).offset(3), rect(7, 7, 26, 26));
    // Shrinking past the extent collapses the axis.
    assert_eq!(rect(10, 10, 4, 20).offset(-3), rect(13, 13, 0, 14));
}

#[test]
fn resizing_keeps_the_anchored_edge() {
    assert_eq!(rect(10, 10, 20, 20).resized_width_left(5), rect(10, 10, 5, 20));
    assert_eq!(rect(10, 10, 20, 20).resized_height_bottom(5), rect(10, 25, 20, 5));
}

#[test]
fn centered_placement() {
    let area = rect(0, 0, 128, 64);
    assert_eq!(area.centered_top_left(Size::new(28, 14)), Point::new(50, 25));
}

#[test]
fn enveloping_covers_both() {
    let a = rect(0, 0, 10, 10);
    let b = rect(20, 5, 10, 10);
    assert_eq!(a.enveloping(&b), rect(0, 0, 30, 15));
}

#[test]
fn circle_with_center() {
    let c = Circle::with_center(Point::new(50, 50), 10);
    assert_eq!(c.top_left, Point::new(45, 45));
    assert_eq!(c.bounding_box(), rect(45, 45, 10, 10));
}

#[test]
fn fractions_of_extents() {
    assert_eq!(frac(100, 9, 10), 90);
    assert_eq!(frac(128, 8, 10), 102);
    assert_eq!(frac(57, 45, 100), 25);
    assert_eq!(frac(0, 9, 10), 0);
}
