use vstd::prelude::*;

verus! {

/// Whether an integer value is representable as an `i128`.
pub open spec fn fits(v: int) -> bool {
    i128::MIN <= v <= i128::MAX
}

/// Whether `n * x + k * y` can be computed in `i128` step by step.
pub open spec fn lin_fits(n: int, x: int, k: int, y: int) -> bool {
    fits(n * x) && fits(k * y) && fits(n * x + k * y)
}

/// Computes `n * x + k * y`, or `None` when a step leaves the `i128` range.
fn lin(n: i128, x: i128, k: i128, y: i128) -> (r: Option<i128>)
    ensures
        r is Some <==> lin_fits(n as int, x as int, k as int, y as int),
        r is Some ==> r->0 == n * x + k * y,
{
    let p = n.checked_mul(x)?;
    let q = k.checked_mul(y)?;
    p.checked_add(q)
}

/// Whether `n * x - k * y` can be computed in `i128` step by step.
pub open spec fn diff_fits(n: int, x: int, k: int, y: int) -> bool {
    fits(n * x) && fits(k * y) && fits(n * x - k * y)
}

/// Computes `n * x - k * y`, or `None` when a step leaves the `i128` range.
fn diff(n: i128, x: i128, k: i128, y: i128) -> (r: Option<i128>)
    ensures
        r is Some <==> diff_fits(n as int, x as int, k as int, y as int),
        r is Some ==> r->0 == n * x - k * y,
{
    let p = n.checked_mul(x)?;
    let q = k.checked_mul(y)?;
    p.checked_sub(q)
}

/// A 2D affine transform with exact rational coefficients.
///
/// A view-space point `(x, y)` maps to the screen-space point
/// `((a x + c y + e) / den, (b x + d y + f) / den)`.
#[derive(Clone, Copy, Debug, PartialEq, Eq)]
pub struct Transform {
    pub a: i128,
    pub b: i128,
    pub c: i128,
    pub d: i128,
    pub e: i128,
    pub f: i128,
    pub den: i128,
}

impl Transform {
    /// A usable transform: positive denominator and invertible linear part.
    pub open spec fn wf(self) -> bool {
        self.den > 0 && self.det() != 0
    }

    /// Determinant of the linear part's numerators.
    pub open spec fn det(self) -> int {
        self.a * self.d - self.b * self.c
    }

    /// Numerators of the image of the homogeneous point `(x, y, w)`, that is of
    /// the rational point `(x / w, y / w)`; the image's denominator is `den * w`.
    pub open spec fn image(self, x: int, y: int, w: int) -> (int, int) {
        (self.a * x + self.c * y + self.e * w, self.b * x + self.d * y + self.f * w)
    }

    /// Whether the view-space point `(x / w, y / w)` lands on the screen point
    /// `(px, py)`.
    pub open spec fn maps_to(self, x: int, y: int, w: int, px: int, py: int) -> bool {
        self.image(x, y, w) == (px * self.den * w, py * self.den * w)
    }

    /// Homogeneous coordinates `(x, y, w)` of the view-space point that lands
    /// on the screen point `(px, py)`: the point `(x / w, y / w)` through the
    /// inverse transform.
    pub open spec fn view_of(self, px: int, py: int) -> (int, int, int) {
        let u = px * self.den - self.e;
        let v = py * self.den - self.f;
        (self.d * u - self.c * v, self.a * v - self.b * u, self.det())
    }

    /// Whether `view_point(px, py)` can be computed in `i128`.
    pub open spec fn view_fits(self, px: int, py: int) -> bool {
        let u = px * self.den - self.e;
        let v = py * self.den - self.f;
        &&& diff_fits(px, self.den as int, 1, self.e as int)
        &&& diff_fits(py, self.den as int, 1, self.f as int)
        &&& diff_fits(self.d as int, u, self.c as int, v)
        &&& diff_fits(self.a as int, v, self.b as int, u)
        &&& diff_fits(self.a as int, self.d as int, self.b as int, self.c as int)
    }

    /// `1` or `-1`, so that the inverse gets a positive denominator.
    pub open spec fn det_sign(self) -> int {
        if self.det() > 0 { 1 } else { -1 }
    }

    /// Whether `inverse()` can be computed in `i128`.
    pub open spec fn inverse_fits(self) -> bool {
        let k = self.det_sign() * self.den;
        &&& diff_fits(self.a as int, self.d as int, self.b as int, self.c as int)
        &&& diff_fits(self.c as int, self.f as int, self.d as int, self.e as int)
        &&& diff_fits(self.b as int, self.e as int, self.a as int, self.f as int)
        &&& fits(k * self.d) &&& fits(k * self.b) &&& fits(-(k * self.b))
        &&& fits(k * self.c) &&& fits(-(k * self.c)) &&& fits(k * self.a)
        &&& fits(self.det_sign() * (self.c * self.f - self.d * self.e))
        &&& fits(self.det_sign() * (self.b * self.e - self.a * self.f))
        &&& fits(self.det_sign() * self.det())
    }

    /// The inverse transform: it maps each screen point back to the
    /// view-space point that lands on it.
    pub open spec fn inverse_spec(self) -> Transform {
        let sg = self.det_sign();
        let k = sg * self.den;
        Transform {
            a: (k * self.d) as i128,
            b: (-(k * self.b)) as i128,
            c: (-(k * self.c)) as i128,
            d: (k * self.a) as i128,
            e: (sg * (self.c * self.f - self.d * self.e)) as i128,
            f: (sg * (self.b * self.e - self.a * self.f)) as i128,
            den: (sg * self.det()) as i128,
        }
    }

    /// The inverse transform; `None` when it is out of the `i128` range.
    pub fn inverse(&self) -> (r: Option<Transform>)
        requires
            self.wf(),
        ensures
            r is Some <==> self.inverse_fits(),
            r is Some ==> r->0 == self.inverse_spec() && r->0.wf(),
            r matches Some(i) ==> forall|px: int, py: int|
                same_point(
                    ((#[trigger] i.image(px, py, 1)).0, i.image(px, py, 1).1, i.den as int),
                    self.view_of(px, py),
                ),
    {
        let det = diff(self.a, self.d, self.b, self.c)?;
        let ex = diff(self.c, self.f, self.d, self.e)?;
        let fy = diff(self.b, self.e, self.a, self.f)?;
        let sg: i128 = if det > 0 { 1 } else { -1 };
        let k: i128 = if det > 0 { self.den } else { -self.den };
        assert(sg == self.det_sign() && k == self.det_sign() * self.den);
        let a = k.checked_mul(self.d)?;
        let b = 0i128.checked_sub(k.checked_mul(self.b)?)?;
        let c = 0i128.checked_sub(k.checked_mul(self.c)?)?;
        let d = k.checked_mul(self.a)?;
        let e = sg.checked_mul(ex)?;
        let f = sg.checked_mul(fy)?;
        let den = sg.checked_mul(det)?;
        let r = Transform { a, b, c, d, e, f, den };
        proof {
            let (a0, b0, c0, d0) = (self.a as int, self.b as int, self.c as int, self.d as int);
            assert((-b0) * (-c0) == b0 * c0) by (nonlinear_arith);
            lemma_det_scaled(d0, -b0, -c0, a0, k as int);
            assert(k * (-b0) == -(k * b0) && k * (-c0) == -(k * c0)) by (nonlinear_arith);
            assert(sg * (a0 * d0 - b0 * c0) > 0) by (nonlinear_arith)
                requires
                    sg == 1 || sg == -1,
                    a0 * d0 - b0 * c0 != 0,
                    sg == 1 <==> a0 * d0 - b0 * c0 > 0;
        }
        proof {
            assert forall|px: int, py: int|
                same_point(
                    ((#[trigger] r.image(px, py, 1)).0, r.image(px, py, 1).1, r.den as int),
                    self.view_of(px, py),
                ) by {
                lemma_inverse_maps_back(*self, px, py);
            }
        }
        Some(r)
    }

    /// Whether `map_point(x, y)` can be computed in `i128`.
    pub open spec fn map_fits(self, x: int, y: int) -> bool {
        &&& lin_fits(self.a as int, x, self.c as int, y)
        &&& fits(self.a * x + self.c * y + self.e)
        &&& lin_fits(self.b as int, x, self.d as int, y)
        &&& fits(self.b * x + self.d * y + self.f)
    }

    /// Whether two transforms map every point alike, whatever their denominators.
    pub open spec fn same_map(self, o: Transform) -> bool {
        &&& self.a * o.den == o.a * self.den
        &&& self.b * o.den == o.b * self.den
        &&& self.c * o.den == o.c * self.den
        &&& self.d * o.den == o.d * self.den
        &&& self.e * o.den == o.e * self.den
        &&& self.f * o.den == o.f * self.den
    }

    pub open spec fn identity_spec() -> Transform {
        Transform { a: 1, b: 0, c: 0, d: 1, e: 0, f: 0, den: 1 }
    }

    /// The identity transform.
    pub fn identity() -> (r: Transform)
        ensures
            r.wf(),
            r == Transform::identity_spec(),
    {
        Transform { a: 1, b: 0, c: 0, d: 1, e: 0, f: 0, den: 1 }
    }

    /// Maps the view-space point `(x, y)` forward. The result `(sx, sy)`
    /// stands for the screen point `(sx / den, sy / den)`; `None` when it is
    /// out of the `i128` range.
    pub fn map_point(&self, x: i64, y: i64) -> (r: Option<(i128, i128)>)
        ensures
            r == (if self.map_fits(x as int, y as int) {
                let (sx, sy) = self.image(x as int, y as int, 1);
                Some((sx as i128, sy as i128))
            } else {
                None
            }),
    {
        let sx = lin(self.a, x as i128, self.c, y as i128)?;
        let sx = sx.checked_add(self.e)?;
        let sy = lin(self.b, x as i128, self.d, y as i128)?;
        let sy = sy.checked_add(self.f)?;
        Some((sx, sy))
    }

    /// The view-space point under the screen point `(px, py)`, through the
    /// inverse transform, as homogeneous coordinates `(x, y, w)` with `w`
    /// nonzero; `None` when it is out of the `i128` range.
    pub fn view_point(&self, px: i64, py: i64) -> (r: Option<(i128, i128, i128)>)
        requires
            self.wf(),
        ensures
            r == (if self.view_fits(px as int, py as int) {
                let (x, y, w) = self.view_of(px as int, py as int);
                Some((x as i128, y as i128, w as i128))
            } else {
                None
            }),
            r matches Some((x, y, w)) ==> w != 0 && self.maps_to(x as int, y as int, w as int, px as int, py as int),
    {
        let u = diff(px as i128, self.den, 1, self.e)?;
        let v = diff(py as i128, self.den, 1, self.f)?;
        let x = diff(self.d, u, self.c, v)?;
        let y = diff(self.a, v, self.b, u)?;
        let w = diff(self.a, self.d, self.b, self.c)?;
        proof {
            lemma_view_of_maps(*self, px as int, py as int);
        }
        Some((x, y, w))
    }

    /// Whether `shift(dx, dy)` can be computed in `i128`.
    pub open spec fn shift_fits(self, dx: int, dy: int) -> bool {
        lin_fits(1, self.e as int, dx, self.den as int) && lin_fits(1, self.f as int, dy, self.den as int)
    }

    /// The transform that lands every view-space point `(dx, dy)` further on
    /// screen: the post-multiplication by the translation through the
    /// view-space difference of two screen points `(dx, dy)` apart.
    pub open spec fn shifted(self, dx: int, dy: int) -> Transform {
        Transform { e: (self.e + dx * self.den) as i128, f: (self.f + dy * self.den) as i128, ..self }
    }

    /// Shifts the image of every point by the screen-space delta `(dx, dy)`;
    /// `None` when the result is out of the `i128` range.
    pub fn shift(&self, dx: i64, dy: i64) -> (r: Option<Transform>)
        requires
            self.wf(),
        ensures
            r is Some <==> self.shift_fits(dx as int, dy as int),
            r is Some ==> r->0 == self.shifted(dx as int, dy as int) && r->0.wf(),
    {
        let e = lin(1, self.e, dx as i128, self.den)?;
        let f = lin(1, self.f, dy as i128, self.den)?;
        Some(Transform { e, f, ..*self })
    }

    /// Whether `scale_about(px, py, n, m)` can be computed in `i128`.
    pub open spec fn scale_fits(self, px: int, py: int, n: int, m: int) -> bool {
        &&& fits(n * self.a) &&& fits(n * self.b) &&& fits(n * self.c) &&& fits(n * self.d)
        &&& fits(px * self.den) &&& fits(py * self.den)
        &&& lin_fits(n, self.e as int, m - n, px * self.den)
        &&& lin_fits(n, self.f as int, m - n, py * self.den)
        &&& fits(m * self.den)
    }

    /// The transform scaled by `n / m` on both axes about the screen point
    /// `(px, py)`: the old transform, post-multiplied by the translation to
    /// the view-space point under `(px, py)`, the scale, and the translation back.
    pub open spec fn scaled_about(self, px: int, py: int, n: int, m: int) -> Transform {
        Transform {
            a: (n * self.a) as i128,
            b: (n * self.b) as i128,
            c: (n * self.c) as i128,
            d: (n * self.d) as i128,
            e: (n * self.e + (m - n) * (px * self.den)) as i128,
            f: (n * self.f + (m - n) * (py * self.den)) as i128,
            den: (m * self.den) as i128,
        }
    }

    /// Scales by the factor `n / m` about the screen point `(px, py)`, which
    /// stays over the same view-space point; `None` when the result is out
    /// of the `i128` range.
    pub fn scale_about(&self, px: i64, py: i64, n: i64, m: i64) -> (r: Option<Transform>)
        requires
            self.wf(),
            n > 0,
            m > 0,
        ensures
            r is Some <==> self.scale_fits(px as int, py as int, n as int, m as int),
            r is Some ==> r->0 == self.scaled_about(px as int, py as int, n as int, m as int)
                && r->0.wf(),
    {
        let n = n as i128;
        let m = m as i128;
        let dn = m - n;
        let a = n.checked_mul(self.a)?;
        let b = n.checked_mul(self.b)?;
        let c = n.checked_mul(self.c)?;
        let d = n.checked_mul(self.d)?;
        let pxd = (px as i128).checked_mul(self.den)?;
        let pyd = (py as i128).checked_mul(self.den)?;
        let e = lin(n, self.e, dn, pxd)?;
        let f = lin(n, self.f, dn, pyd)?;
        let den = m.checked_mul(self.den)?;
        let r = Transform { a, b, c, d, e, f, den };
        proof {
            lemma_scaled_wf(*self, px as int, py as int, n as int, m as int);
        }
        Some(r)
    }
}

/// The inverse transform takes a screen point to the view-space point that
/// lands on it.
proof fn lemma_inverse_maps_back(t: Transform, px: int, py: int)
    requires
        t.wf(),
        t.inverse_fits(),
    ensures
        ({
            let i = t.inverse_spec();
            same_point((i.image(px, py, 1).0, i.image(px, py, 1).1, i.den as int), t.view_of(px, py))
        }),
{
    let i = t.inverse_spec();
    let (a, b, c, d, e, f, den) = (t.a as int, t.b as int, t.c as int, t.d as int, t.e as int, t.f as int, t.den as int);
    let sg = t.det_sign();
    let k = sg * den;
    let (x, y, w) = t.view_of(px, py);
    assert(i.image(px, py, 1).0 == (k * d) * px + (-(k * c)) * py + sg * (c * f - d * e));
    assert(i.image(px, py, 1).1 == (-(k * b)) * px + (k * a) * py + sg * (b * e - a * f));
    lemma_inverse_row(d, c, e, f, den, sg, k, px, py);
    lemma_inverse_row(a, b, f, e, den, sg, k, py, px);
    assert((sg * x) * w == x * (sg * w)) by (nonlinear_arith);
    assert((sg * y) * w == y * (sg * w)) by (nonlinear_arith);
}

/// One row of the inverse transform applied to `(u, v)`, against the
/// matching coordinate of `view_of`.
proof fn lemma_inverse_row(p: int, q: int, g: int, h: int, den: int, sg: int, k: int, u: int, v: int)
    requires
        k == sg * den,
    ensures
        (k * p) * u + (-(k * q)) * v + sg * (q * h - p * g) == sg * (p * (u * den - g) - q * (v * den - h)),
{
    let pu = p * (u * den);
    let qv = q * (v * den);
    let pg = p * g;
    let qh = q * h;
    vstd::arithmetic::mul::lemma_mul_is_distributive_sub(p, u * den, g);
    vstd::arithmetic::mul::lemma_mul_is_distributive_sub(q, v * den, h);
    assert((k * p) * u == sg * (p * (u * den))) by (nonlinear_arith) requires k == sg * den;
    assert((k * q) * v == sg * (q * (v * den))) by (nonlinear_arith) requires k == sg * den;
    assert((-(k * q)) * v == -((k * q) * v)) by (nonlinear_arith);
    assert(sg * (pu - pg - (qv - qh)) == sg * pu - sg * qv + sg * (qh - pg)) by (nonlinear_arith);
}

/// The inverse image of a screen point lands on it.
pub proof fn lemma_view_of_maps(t: Transform, px: int, py: int)
    requires
        t.wf(),
    ensures
        t.maps_to(t.view_of(px, py).0, t.view_of(px, py).1, t.view_of(px, py).2, px, py),
{
    let (a, b, c, d, e, f, den) = (t.a as int, t.b as int, t.c as int, t.d as int, t.e as int, t.f as int, t.den as int);
    let u = px * den - e;
    let v = py * den - f;
    let w = a * d - b * c;
    assert(a * (d * u - c * v) + c * (a * v - b * u) == w * u) by (nonlinear_arith)
        requires w == a * d - b * c;
    assert(b * (d * u - c * v) + d * (a * v - b * u) == w * v) by (nonlinear_arith)
        requires w == a * d - b * c;
    assert(w * u + e * w == px * den * w) by (nonlinear_arith) requires u == px * den - e;
    assert(w * v + f * w == py * den * w) by (nonlinear_arith) requires v == py * den - f;
}

/// Scaling by a positive factor keeps a transform usable.
pub proof fn lemma_scaled_wf(t: Transform, px: int, py: int, n: int, m: int)
    requires
        t.wf(),
        n > 0,
        m > 0,
        t.scale_fits(px, py, n, m),
    ensures
        t.scaled_about(px, py, n, m).wf(),
{
    lemma_det_scaled(t.a as int, t.b as int, t.c as int, t.d as int, n);
    vstd::arithmetic::mul::lemma_mul_strictly_positive(m, t.den as int);
}

/// Whether two homogeneous points `(x, y, w)` stand for the same point.
pub open spec fn same_point(p: (int, int, int), q: (int, int, int)) -> bool {
    p.0 * q.2 == q.0 * p.2 && p.1 * q.2 == q.1 * p.2
}

/// An invertible transform lands at most one view-space point on a given
/// screen point.
pub proof fn lemma_unique_preimage(
    t: Transform,
    p: (int, int, int),
    q: (int, int, int),
    px: int,
    py: int,
)
    requires
        t.wf(),
        p.2 != 0,
        q.2 != 0,
        t.maps_to(p.0, p.1, p.2, px, py),
        t.maps_to(q.0, q.1, q.2, px, py),
    ensures
        same_point(p, q),
{
    let (a, b, c, d, e, f, den) = (t.a as int, t.b as int, t.c as int, t.d as int, t.e as int, t.f as int, t.den as int);
    let (x1, y1, w1) = p;
    let (x2, y2, w2) = q;
    let uu = x1 * w2 - x2 * w1;
    let vv = y1 * w2 - y2 * w1;
    lemma_row_cross(a, c, e, x1, y1, w1, x2, y2, w2, px * den);
    lemma_row_cross(b, d, f, x1, y1, w1, x2, y2, w2, py * den);
    let det = a * d - b * c;
    assert(det * uu == 0) by (nonlinear_arith)
        requires det == a * d - b * c, a * uu + c * vv == 0, b * uu + d * vv == 0;
    assert(det * vv == 0) by (nonlinear_arith)
        requires det == a * d - b * c, a * uu + c * vv == 0, b * uu + d * vv == 0;
    assert(uu == 0) by (nonlinear_arith) requires det * uu == 0, det != 0;
    assert(vv == 0) by (nonlinear_arith) requires det * vv == 0, det != 0;
}

/// A row of a transform applied to `(x, y, w)`, times `z`.
proof fn lemma_row_times(a: int, c: int, e: int, x: int, y: int, w: int, z: int)
    ensures
        (a * x + c * y + e * w) * z == a * (x * z) + c * (y * z) + e * (w * z),
{
    vstd::arithmetic::mul::lemma_mul_is_distributive_add_other_way(z, a * x + c * y, e * w);
    vstd::arithmetic::mul::lemma_mul_is_distributive_add_other_way(z, a * x, c * y);
    vstd::arithmetic::mul::lemma_mul_is_associative(a, x, z);
    vstd::arithmetic::mul::lemma_mul_is_associative(c, y, z);
    vstd::arithmetic::mul::lemma_mul_is_associative(e, w, z);
}

/// Two homogeneous points on which one row of a transform takes the same
/// value `k`: cross-multiplied, their difference lies in the row's kernel.
proof fn lemma_row_cross(a: int, c: int, e: int, x1: int, y1: int, w1: int, x2: int, y2: int, w2: int, k: int)
    requires
        a * x1 + c * y1 + e * w1 == k * w1,
        a * x2 + c * y2 + e * w2 == k * w2,
    ensures
        a * (x1 * w2 - x2 * w1) + c * (y1 * w2 - y2 * w1) == 0,
{
    lemma_row_times(a, c, e, x1, y1, w1, w2);
    lemma_row_times(a, c, e, x2, y2, w2, w1);
    vstd::arithmetic::mul::lemma_mul_is_commutative(w1, w2);
    assert((k * w1) * w2 == (k * w2) * w1) by (nonlinear_arith);
    vstd::arithmetic::mul::lemma_mul_is_distributive_sub(a, x1 * w2, x2 * w1);
    vstd::arithmetic::mul::lemma_mul_is_distributive_sub(c, y1 * w2, y2 * w1);
}

/// Scaling the linear part by `n` scales the determinant by `n * n`, so it
/// stays nonzero.
proof fn lemma_det_scaled(a: int, b: int, c: int, d: int, n: int)
    requires
        n != 0,
        a * d - b * c != 0,
    ensures
        (n * a) * (n * d) - (n * b) * (n * c) == (n * n) * (a * d - b * c),
        (n * a) * (n * d) - (n * b) * (n * c) != 0,
{
    let nn = n * n;
    assert((n * a) * (n * d) == nn * (a * d)) by (nonlinear_arith) requires nn == n * n;
    assert((n * b) * (n * c) == nn * (b * c)) by (nonlinear_arith) requires nn == n * n;
    vstd::arithmetic::mul::lemma_mul_is_distributive_sub(nn, a * d, b * c);
    assert(n * n > 0) by (nonlinear_arith) requires n != 0;
    assert((n * n) * (a * d - b * c) != 0) by (nonlinear_arith)
        requires n * n > 0, a * d - b * c != 0;
}

} // verus!
