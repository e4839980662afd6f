use view_core::transform::Transform;
use view_core::view::{ViewController, MAX_OFFSET, MAX_SCALE, MIN_SCALE, UNIT};

fn ratio_eq(num: i128, den: i128, p: i128, q: i128) -> bool {
    num * q == p * den
}

#[test]
fn identity_maps_points_to_themselves() {
    let t = Transform::identity();
    assert_eq!(t.map_point(7, -3), Some((7, -3)));
    assert_eq!(t.den, 1);
}

#[test]
fn map_point_applies_all_coefficients() {
    let t = Transform { a: 2, b: 1, c: 3, d: 4, e: 5, f: 6, den: 2 };
    // (2*1 + 3*2 + 5, 1*1 + 4*2 + 6) over 2
    assert_eq!(t.map_point(1, 2), Some((13, 15)));
}

#[test]
fn map_point_reports_overflow() {
    let t = Transform { a: i128::MAX, b: 0, c: 0, d: 1, e: 0, f: 0, den: 1 };
    assert_eq!(t.map_point(2, 0), None);
}

#[test]
fn view_point_inverts_map_point() {
    let t = Transform { a: 2, b: 1, c: 3, d: 4, e: 5, f: 6, den: 2 };
    let (x, y, w) = t.view_point(13, 15).unwrap();
    assert_ne!(w, 0);
    let sx = t.a * x + t.c * y + t.e * w;
    let sy = t.b * x + t.d * y + t.f * w;
    assert_eq!(sx, 13 * t.den * w);
    assert_eq!(sy, 15 * t.den * w);
    let (x2, y2, w2) = t.view_point(0, 0).unwrap();
    assert_eq!(t.a * x2 + t.c * y2 + t.e * w2, 0);
    assert_eq!(t.b * x2 + t.d * y2 + t.f * w2, 0);
}

#[test]
fn shift_adds_screen_delta_to_translation() {
    let t = Transform { a: 3, b: 0, c: 0, d: 3, e: 4, f: 8, den: 2 };
    let s = t.shift(5, -1).unwrap();
    assert_eq!(s, Transform { e: 14, f: 6, ..t });
}

#[test]
fn shift_reports_overflow() {
    let t = Transform { a: 1, b: 0, c: 0, d: 1, e: i128::MAX, f: 0, den: 1 };
    assert_eq!(t.shift(1, 0), None);
    assert!(t.shift(0, 1).is_some());
}

#[test]
fn scale_about_keeps_point_fixed() {
    let t = Transform::identity().shift(20, 10).unwrap();
    let s = t.scale_about(320, 210, 11, 10).unwrap();
    assert_eq!(s, Transform { a: 11, b: 0, c: 0, d: 11, e: -100, f: -100, den: 10 });
    // (300, 200) was under (320, 210) and still is
    assert_eq!(s.map_point(300, 200), Some((3200, 2100)));
}

#[test]
fn pan_then_zoom_then_inverse_sequence_restores_identity() {
    let t = Transform::identity();
    let r = t
        .shift(50, 30)
        .unwrap()
        .scale_about(100, 100, 12, 10)
        .unwrap()
        .scale_about(100, 100, 10, 12)
        .unwrap()
        .shift(-50, -30)
        .unwrap();
    assert!(ratio_eq(r.a, r.den, 1, 1));
    assert!(ratio_eq(r.d, r.den, 1, 1));
    assert_eq!((r.b, r.c, r.e, r.f), (0, 0, 0, 0));
}

#[test]
fn pan_moves_view_point_with_cursor() {
    let mut v = ViewController::new();
    assert!(v.zoom_about(0, 0, 5));
    let before = v.transform().view_point(40, 60).unwrap();
    assert!(v.pan(7, -9));
    let after = v.transform().view_point(47, 51).unwrap();
    assert_eq!(before.0 * after.2, after.0 * before.2);
    assert_eq!(before.1 * after.2, after.1 * before.2);
}

#[test]
fn zoom_keeps_view_point_under_cursor() {
    let mut v = ViewController::new();
    assert!(v.pan(13, -4));
    let before = v.transform().view_point(250, 120).unwrap();
    assert!(v.zoom_about(250, 120, 3));
    let after = v.transform().view_point(250, 120).unwrap();
    assert_eq!(before.0 * after.2, after.0 * before.2);
    assert_eq!(before.1 * after.2, after.1 * before.2);
}

#[test]
fn zoom_scales_both_axes_by_a_tenth_per_line() {
    for lines in -5..=5 {
        let mut v = ViewController::new();
        assert!(v.zoom_about(33, 44, 2));
        let t0 = v.transform();
        assert!(v.zoom_about(10, 20, lines));
        let t1 = v.transform();
        let n = 10 + lines as i128;
        assert_eq!(10 * t1.a * t0.den, n * t0.a * t1.den);
        assert_eq!(10 * t1.d * t0.den, n * t0.d * t1.den);
        assert_eq!((t1.b, t1.c), (0, 0));
    }
}

#[test]
fn zoom_of_minus_five_lines_halves_the_scale() {
    let mut v = ViewController::new();
    assert!(v.zoom_about(0, 0, -5));
    let t = v.transform();
    assert!(ratio_eq(t.a, t.den, 1, 2));
}

#[test]
fn zoom_to_zero_or_negative_factor_is_rejected() {
    let mut v = ViewController::new();
    assert!(v.pan(3, 4));
    let t = v.transform();
    assert!(!v.zoom_about(1, 1, -10));
    assert!(!v.zoom_about(1, 1, -25));
    assert_eq!(v.transform(), t);
    assert!(v.zoom_about(1, 1, -9));
}

#[test]
fn zoom_in_is_refused_only_past_the_largest_scale() {
    let mut v = ViewController::new();
    let mut accepted: u32 = 0;
    while v.zoom_about(320, 210, 1) {
        accepted += 1;
        assert!(accepted < 1000);
    }
    // 1.1^72 is below 1000 and 1.1^73 above
    assert_eq!(accepted, 72);
    let t = v.transform();
    assert!(t.a <= MAX_SCALE);
    assert!(t.a * 11 > MAX_SCALE * 10);
    assert!(!v.zoom_about(320, 210, 1));
    assert_eq!(v.transform(), t);
    // zooming back out still works
    assert!(v.zoom_about(320, 210, -1));
}

#[test]
fn zoom_out_is_refused_only_past_the_smallest_scale() {
    let mut v = ViewController::new();
    let mut accepted: u32 = 0;
    while v.zoom_about(100, 100, -5) {
        accepted += 1;
        assert!(accepted < 1000);
    }
    // halving: 1/512 is above a thousandth, 1/1024 below
    assert_eq!(accepted, 9);
    assert!(v.transform().a >= MIN_SCALE);
    assert!(v.zoom_about(100, 100, 5));
}

#[test]
fn alternating_zoom_is_not_refused_while_scale_in_range() {
    let mut v = ViewController::new();
    // each pair scales by 0.99: 0.99^300 is about 0.049
    for _ in 0..300 {
        assert!(v.zoom_about(320, 210, 1));
        assert!(v.zoom_about(320, 210, -1));
    }
    let t = v.transform();
    assert_eq!(t.den, UNIT);
    assert!(t.a >= MIN_SCALE && t.a <= MAX_SCALE);
}

#[test]
fn rounded_zoom_keeps_cursor_point_within_a_millionth() {
    let mut v = ViewController::new();
    for i in 0..40 {
        let (sx, sy) = (100 + 7 * i, 50 + 3 * i);
        let (x, y, w) = v.transform().view_point(sx, sy).unwrap();
        assert!(v.zoom_about(sx, sy, 1));
        let t = v.transform();
        // screen position of the old view point, times den * w
        let u = t.a * x + t.c * y + t.e * w;
        let err = (u - sx as i128 * t.den * w).abs();
        assert!(2 * err <= x.abs() + w.abs());
    }
}

#[test]
fn pan_is_refused_only_past_the_largest_offset() {
    let mut v = ViewController::new();
    let mut accepted: u64 = 0;
    while v.pan(i64::MAX, 0) {
        accepted += 1;
    }
    assert!(accepted > 100000);
    let t = v.transform();
    assert!(t.e <= MAX_OFFSET);
    assert!(t.e + i64::MAX as i128 * UNIT > MAX_OFFSET);
    assert!(!v.pan(i64::MAX, 0));
    assert_eq!(v.transform(), t);
    assert!(v.pan(-1, 0));
}

#[test]
fn inverse_of_pan_and_zoom_maps_screen_back_to_view() {
    let t = Transform::identity().shift(20, 10).unwrap().scale_about(320, 210, 11, 10).unwrap();
    let i = t.inverse().unwrap();
    assert!(i.den > 0);
    // (320, 210) on screen shows the view-space point (300, 200)
    assert_eq!(i.map_point(320, 210), Some((300 * i.den, 200 * i.den)));
}

#[test]
fn inverse_has_positive_denominator_for_mirrored_transform() {
    let t = Transform { a: 1, b: 0, c: 0, d: -1, e: 4, f: 6, den: 1 };
    let i = t.inverse().unwrap();
    assert_eq!(i, Transform { a: 1, b: 0, c: 0, d: -1, e: -4, f: 6, den: 1 });
    assert_eq!(i.map_point(4, 6), Some((0, 0)));
}

#[test]
fn inverse_reports_overflow() {
    let t = Transform { a: i128::MAX, b: 0, c: 0, d: 2, e: 0, f: 0, den: 1 };
    assert_eq!(t.inverse(), None);
}
