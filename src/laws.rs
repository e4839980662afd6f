use vstd::math::abs;
use vstd::prelude::*;

use crate::transform::{lemma_unique_preimage, lemma_view_of_maps, same_point, Transform};
use crate::view::{
    lemma_round10, pan_accepted, view_shape, zoom_accepted, zoom_num, zoomed, UNIT, ZOOM_DIVISOR,
};

verus! {

/// Dragging keeps the cursor over the same content: a view-space point that
/// the old transform put under the cursor at `(mx, my)`, the transform
/// panned by `(dx, dy)` puts under the moved cursor at `(mx + dx, my + dy)`.
pub proof fn lemma_pan_keeps_point_under_cursor(
    t: Transform,
    dx: int,
    dy: int,
    x: int,
    y: int,
    w: int,
    mx: int,
    my: int,
)
    requires
        t.wf(),
        t.shift_fits(dx, dy),
        t.maps_to(x, y, w, mx, my),
    ensures
        t.shifted(dx, dy).maps_to(x, y, w, mx + dx, my + dy),
{
    let den = t.den as int;
    let s = t.shifted(dx, dy);
    assert(s.e == t.e + dx * den && s.f == t.f + dy * den);
    assert((t.e + dx * den) * w == t.e * w + dx * den * w) by (nonlinear_arith);
    assert((t.f + dy * den) * w == t.f * w + dy * den * w) by (nonlinear_arith);
    assert((mx + dx) * den * w == mx * den * w + dx * den * w) by (nonlinear_arith);
    assert((my + dy) * den * w == my * den * w + dy * den * w) by (nonlinear_arith);
}

/// Scaling about a screen point keeps the view-space content under it: a
/// point that the old transform put at `(px, py)`, the scaled one puts there too.
pub proof fn lemma_scale_keeps_point_under_cursor(
    t: Transform,
    px: int,
    py: int,
    n: int,
    m: int,
    x: int,
    y: int,
    w: int,
)
    requires
        t.wf(),
        n > 0,
        m > 0,
        t.scale_fits(px, py, n, m),
        t.maps_to(x, y, w, px, py),
    ensures
        t.scaled_about(px, py, n, m).maps_to(x, y, w, px, py),
{
    let s = t.scaled_about(px, py, n, m);
    let (a, b, c, d, e, f, den) = (t.a as int, t.b as int, t.c as int, t.d as int, t.e as int, t.f as int, t.den as int);
    lemma_scaled_row(a, c, e, x, y, w, n, m - n, px * den);
    lemma_scaled_row(b, d, f, x, y, w, n, m - n, py * den);
    assert(n * (px * den * w) + (m - n) * (px * den) * w == px * (m * den) * w) by (nonlinear_arith);
    assert(n * (py * den * w) + (m - n) * (py * den) * w == py * (m * den) * w) by (nonlinear_arith);
}

/// Dragging the controller's view keeps the cursor over the same content,
/// exactly: after an accepted pan by `(dx, dy)` the view-space point under
/// `(mx + dx, my + dy)` is the one that was under `(mx, my)`.
pub proof fn lemma_view_pan_keeps_point(t: Transform, dx: int, dy: int, mx: int, my: int)
    requires
        view_shape(t),
        pan_accepted(t, dx, dy),
    ensures
        same_point(t.shifted(dx, dy).view_of(mx + dx, my + dy), t.view_of(mx, my)),
{
    assert(t.a * t.d > 0) by (nonlinear_arith) requires t.a == t.d, t.a > 0;
    lemma_pan_view_point(t, dx, dy, mx, my);
}

/// An accepted wheel zoom of `lines` scales both axes by `1 + lines / 10`,
/// up to half a millionth: the new scale `s.a / UNIT` is within `1 / (2 UNIT)`
/// of the factor times the old one, and both axes keep the same scale.
pub proof fn lemma_zoom_factor(t: Transform, sx: int, sy: int, lines: int)
    requires
        view_shape(t),
        zoom_accepted(t, sx, sy, lines),
    ensures
        ({
            let s = zoomed(t, sx, sy, lines);
            &&& -5 <= ZOOM_DIVISOR * s.a - zoom_num(lines) * t.a <= 5
            &&& s.d == s.a && s.b == 0 && s.c == 0 && s.den == t.den
        }),
{
    lemma_round10(zoom_num(lines) * t.a);
}

/// An accepted wheel zoom keeps the content under the cursor, up to
/// rounding: a view-space point `(x / w, y / w)` that was exactly under
/// `(sx, sy)` lands within `(|x / w| + 1) / (2 UNIT)` pixels of it on each axis.
pub proof fn lemma_zoom_keeps_point_near_cursor(
    t: Transform,
    sx: int,
    sy: int,
    lines: int,
    x: int,
    y: int,
    w: int,
)
    requires
        view_shape(t),
        zoom_accepted(t, sx, sy, lines),
        w > 0,
        t.maps_to(x, y, w, sx, sy),
    ensures
        ({
            let (u, v) = zoomed(t, sx, sy, lines).image(x, y, w);
            &&& 2 * abs(u - sx * UNIT * w) <= abs(x) + w
            &&& 2 * abs(v - sy * UNIT * w) <= abs(y) + w
        }),
{
    let n = zoom_num(lines);
    let s = zoomed(t, sx, sy, lines);
    lemma_round10(n * t.a);
    lemma_round10(n * t.e + (ZOOM_DIVISOR - n) * (sx * UNIT));
    lemma_round10(n * t.f + (ZOOM_DIVISOR - n) * (sy * UNIT));
    assert(t.c * y == 0 && t.b * x == 0 && s.c * y == 0 && s.b * x == 0);
    lemma_rounded_row(t.a as int, t.e as int, s.a as int, s.e as int, n, sx * UNIT, x, w);
    lemma_rounded_row(t.d as int, t.f as int, s.d as int, s.f as int, n, sy * UNIT, y, w);
}

/// One axis of a rounded zoom: the image moves by at most `(|x| + w) / 2`
/// numerator units from where the exact zoom puts it.
proof fn lemma_rounded_row(a: int, e: int, sa: int, se: int, n: int, q: int, x: int, w: int)
    requires
        -5 <= 10 * sa - n * a <= 5,
        -5 <= 10 * se - (n * e + (10 - n) * q) <= 5,
        a * x + e * w == q * w,
        w > 0,
    ensures
        2 * abs(sa * x + se * w - q * w) <= abs(x) + w,
{
    let ea = 10 * sa - n * a;
    let ee = 10 * se - (n * e + (10 - n) * q);
    let qw = q * w;
    vstd::arithmetic::mul::lemma_mul_is_distributive_add_other_way(x, n * a, ea);
    vstd::arithmetic::mul::lemma_mul_is_distributive_add_other_way(w, n * e + (10 - n) * q, ee);
    vstd::arithmetic::mul::lemma_mul_is_distributive_add_other_way(w, n * e, (10 - n) * q);
    vstd::arithmetic::mul::lemma_mul_is_associative(10, sa, x);
    vstd::arithmetic::mul::lemma_mul_is_associative(10, se, w);
    vstd::arithmetic::mul::lemma_mul_is_associative(n, a, x);
    vstd::arithmetic::mul::lemma_mul_is_associative(n, e, w);
    vstd::arithmetic::mul::lemma_mul_is_associative(10 - n, q, w);
    vstd::arithmetic::mul::lemma_mul_is_distributive_add(n, a * x, e * w);
    vstd::arithmetic::mul::lemma_mul_is_distributive_sub_other_way(qw, 10, n);
    assert(10 * (sa * x + se * w - q * w) == ea * x + ee * w);
    if x >= 0 {
        assert(-5 * x <= ea * x <= 5 * x) by (nonlinear_arith) requires -5 <= ea <= 5, x >= 0;
    } else {
        assert(5 * x <= ea * x <= -5 * x) by (nonlinear_arith) requires -5 <= ea <= 5, x < 0;
    }
    assert(-5 * w <= ee * w <= 5 * w) by (nonlinear_arith) requires -5 <= ee <= 5, w > 0;
}

/// Undoing a drag and a zoom in reverse order restores the view: panning by
/// `(dx, dy)`, scaling by `n / m` about `(px, py)`, then scaling by `m / n`
/// about the same point and panning by `(-dx, -dy)` gives a transform that
/// maps every point as the original does.
pub proof fn lemma_pan_zoom_undone(t: Transform, dx: int, dy: int, px: int, py: int, n: int, m: int)
    requires
        t.wf(),
        n > 0,
        m > 0,
        t.shift_fits(dx, dy),
        t.shifted(dx, dy).scale_fits(px, py, n, m),
        t.shifted(dx, dy).scaled_about(px, py, n, m).scale_fits(px, py, m, n),
        t.shifted(dx, dy).scaled_about(px, py, n, m).scaled_about(px, py, m, n).shift_fits(-dx, -dy),
    ensures
        t.shifted(dx, dy).scaled_about(px, py, n, m).scaled_about(px, py, m, n).shifted(-dx, -dy).same_map(t),
{
    let t1 = t.shifted(dx, dy);
    let t2 = t1.scaled_about(px, py, n, m);
    let t3 = t2.scaled_about(px, py, m, n);
    let t4 = t3.shifted(-dx, -dy);
    let den = t.den as int;
    let mn = m * n;
    assert(t1.den == den && t2.den == m * den);
    assert(t3.den == n * (m * den));
    assert(n * (m * den) == mn * den) by (nonlinear_arith) requires mn == m * n;
    lemma_scaled_twice(t1.e as int, px, den, n, m);
    lemma_scaled_twice(t1.f as int, py, den, n, m);
    assert(t3.den == mn * den);
    assert(t4.e == t3.e + (-dx) * t3.den);
    assert(t4.f == t3.f + (-dy) * t3.den);
    assert((-dx) * (mn * den) == -(dx * (mn * den))) by (nonlinear_arith);
    assert((-dy) * (mn * den) == -(dy * (mn * den))) by (nonlinear_arith);
    assert(mn * (t.e + dx * den) - dx * (mn * den) == mn * t.e) by (nonlinear_arith);
    assert(mn * (t.f + dy * den) - dy * (mn * den) == mn * t.f) by (nonlinear_arith);
    assert(m * (n * t.a) == mn * t.a) by (nonlinear_arith) requires mn == m * n;
    assert(m * (n * t.b) == mn * t.b) by (nonlinear_arith) requires mn == m * n;
    assert(m * (n * t.c) == mn * t.c) by (nonlinear_arith) requires mn == m * n;
    assert(m * (n * t.d) == mn * t.d) by (nonlinear_arith) requires mn == m * n;
    lemma_scaled_coefficient(t.a as int, den, mn);
    lemma_scaled_coefficient(t.b as int, den, mn);
    lemma_scaled_coefficient(t.c as int, den, mn);
    lemma_scaled_coefficient(t.d as int, den, mn);
    lemma_scaled_coefficient(t.e as int, den, mn);
    lemma_scaled_coefficient(t.f as int, den, mn);
}

/// The translation numerator after scaling by `n / m` and then by `m / n`
/// about the same point: the shifts cancel.
proof fn lemma_scaled_twice(e: int, p: int, den: int, n: int, m: int)
    ensures
        m * (n * e + (m - n) * (p * den)) + (n - m) * (p * (m * den)) == (m * n) * e,
{
    let q = p * den;
    assert(p * (m * den) == q * m) by (nonlinear_arith) requires q == p * den;
    assert(m * (n * e + (m - n) * q) == (m * n) * e + m * ((m - n) * q)) by (nonlinear_arith);
    assert(m * ((m - n) * q) + (n - m) * (q * m) == 0) by (nonlinear_arith);
}

/// A coefficient scaled with its denominator describes the same ratio.
proof fn lemma_scaled_coefficient(v: int, den: int, k: int)
    ensures
        (k * v) * den == v * (k * den),
{
    assert((k * v) * den == v * (k * den)) by (nonlinear_arith);
}

/// Dragging, stated through the inverse transform: the view-space point
/// under the cursor after a pan by `(dx, dy)` to `(mx + dx, my + dy)` is the
/// one that was under it at `(mx, my)` before.
pub proof fn lemma_pan_view_point(t: Transform, dx: int, dy: int, mx: int, my: int)
    requires
        t.wf(),
        t.shift_fits(dx, dy),
    ensures
        same_point(t.shifted(dx, dy).view_of(mx + dx, my + dy), t.view_of(mx, my)),
{
    let s = t.shifted(dx, dy);
    let v = t.view_of(mx, my);
    lemma_view_of_maps(t, mx, my);
    lemma_pan_keeps_point_under_cursor(t, dx, dy, v.0, v.1, v.2, mx, my);
    lemma_view_of_maps(s, mx + dx, my + dy);
    lemma_unique_preimage(s, s.view_of(mx + dx, my + dy), v, mx + dx, my + dy);
}

/// One row of a transform scaled by `n` and shifted by `k * q`, applied to
/// the homogeneous point `(x, y, w)`.
proof fn lemma_scaled_row(a: int, c: int, e: int, x: int, y: int, w: int, n: int, k: int, q: int)
    ensures
        (n * a) * x + (n * c) * y + (n * e + k * q) * w == n * (a * x + c * y + e * w) + k * q * w,
{
    vstd::arithmetic::mul::lemma_mul_is_associative(n, a, x);
    vstd::arithmetic::mul::lemma_mul_is_associative(n, c, y);
    vstd::arithmetic::mul::lemma_mul_is_associative(n, e, w);
    vstd::arithmetic::mul::lemma_mul_is_distributive_add_other_way(w, n * e, k * q);
    vstd::arithmetic::mul::lemma_mul_is_distributive_add(n, a * x + c * y, e * w);
    vstd::arithmetic::mul::lemma_mul_is_distributive_add(n, a * x, c * y);
}

} // verus!
