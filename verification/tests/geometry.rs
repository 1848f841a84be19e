use pebble_rust_2026::geometry::{Angle, GPoint, GRect, GSize, Ratio, TRIG_MAX_ANGLE, TRIG_MAX_RATIO};

#[test]
fn size_constructors() {
    assert_eq!(GSize::new(3, 4), GSize { w: 3, h: 4 });
    assert_eq!(GSize::square(7), GSize { w: 7, h: 7 });
}

#[test]
fn size_multiply_and_divide() {
    let s = GSize::new(10, -6);
    assert_eq!(s.multiply(3), GSize::new(30, -18));
    assert_eq!(s.divide(4), GSize::new(2, -1));
    assert_eq!(GSize::new(-7, 7).divide(2), GSize::new(-3, 3));
    assert_eq!(GSize::new(-7, 7).divide(-2), GSize::new(3, -3));
}

#[test]
fn size_multiply_then_divide_roundtrip() {
    let s = GSize::new(-123, 456);
    assert_eq!(s.multiply(5).divide(5), s);
    assert_eq!(s.multiply(-7).divide(-7), s);
}

#[test]
fn size_point_conversions() {
    let s = GSize::new(12, 34);
    let p: GPoint = s.into();
    assert_eq!(p, GPoint::new(12, 34));
    assert_eq!(s.as_point(), p);
    let back: GSize = GSize::from(p);
    assert_eq!(back, s);
}

#[test]
fn size_scaled_by_ratio() {
    let half = Ratio::new(TRIG_MAX_RATIO / 2);
    // 0xffff / 2 == 32767; 100 * 32767 / 65535 == 49 (truncated)
    assert_eq!(GSize::new(100, -100).scaled(half), GSize::new(49, -49));
    let one = Ratio::new(TRIG_MAX_RATIO);
    assert_eq!(GSize::new(100, 20).scaled(one), GSize::new(100, 20));
    assert_eq!(one.scale(-5), -5);
}

#[test]
fn rect_constructors() {
    let r = GRect::new(1, 2, 3, 4);
    assert_eq!(r.origin, GPoint::new(1, 2));
    assert_eq!(r.size, GSize::new(3, 4));
    assert_eq!(GRect::new_from_top_left(GPoint::new(1, 2), GSize::new(3, 4)), r);
}

#[test]
fn rect_new_centered() {
    let r = GRect::new_centered(GPoint::new(50, 60), GSize::new(20, 11));
    assert_eq!(r, GRect::new(40, 55, 20, 11));
    assert_eq!(r.center_point(), GPoint::new(50, 60));
}

#[test]
fn rect_centered_law_on_odd_and_negative_sizes() {
    for (cx, cy, w, h) in [(0i16, 0i16, 5i16, -5i16), (-10, 7, -3, 9), (100, -100, 1, 0)] {
        let c = GPoint::new(cx, cy);
        let r = GRect::new_centered(c, GSize::new(w, h));
        assert_eq!(r.center_point(), c);
    }
}

#[test]
fn rect_shrink_and_expand() {
    let r = GRect::new(10, 20, 30, 40);
    assert_eq!(r.shrink(5), GRect::new(15, 25, 20, 30));
    assert_eq!(r.expand(5), GRect::new(5, 15, 40, 50));
    assert_eq!(r.expand(7).shrink(7), r);
    assert_eq!(r.shrink(15), GRect::new(25, 35, 0, 10));
}

#[test]
fn rect_center_point() {
    assert_eq!(GRect::new(0, 0, 144, 168).center_point(), GPoint::new(72, 84));
    assert_eq!(GRect::new(10, 10, -5, 5).center_point(), GPoint::new(8, 12));
}

#[test]
fn rect_is_empty() {
    assert!(GRect::new(5, 5, 0, 0).is_empty());
    assert!(!GRect::new(5, 5, 0, 1).is_empty());
    assert!(!GRect::new(5, 5, -1, 0).is_empty());
}

#[test]
fn rect_standardize_documented_example() {
    let r = GRect::new(20, 20, -10, -5);
    assert_eq!(r.standardize(), GRect::new(10, 15, 10, 5));
    let s = GRect::new(1, 2, 3, 4);
    assert_eq!(s.standardize(), s);
    assert_eq!(r.standardize().standardize(), r.standardize());
}

#[test]
fn rect_equality_compares_all_fields() {
    assert_eq!(GRect::new(1, 2, 3, 4), GRect::new(1, 2, 3, 4));
    assert_ne!(GRect::new(1, 2, 3, 4), GRect::new(1, 2, 3, 5));
    assert_ne!(GSize::new(1, 2), GSize::new(2, 1));
}

#[test]
fn angle_from_degrees_and_normalize() {
    assert_eq!(Angle::from_degrees(180).value, 0x8000);
    assert_eq!(Angle::from_degrees(360).value, TRIG_MAX_ANGLE);
    assert_eq!(Angle::from_degrees(90).value, 0x4000);
    assert_eq!(Angle::from_degrees(-90).value, -0x4000);
    assert_eq!(Angle::from_degrees(1).value, 182);
    let mut a = Angle::from_degrees(-90);
    a.normalize();
    assert_eq!(a.value, 0xc000);
    let mut b = Angle { value: 3 * TRIG_MAX_ANGLE + 5 };
    b.normalize();
    assert_eq!(b.value, 5);
}

#[test]
fn point_subtract() {
    assert_eq!(GPoint::new(5, 5).subtract(GPoint::new(7, -2)), GPoint::new(-2, 7));
}
