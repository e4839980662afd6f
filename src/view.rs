use vstd::prelude::*;

use crate::transform::Transform;

verus! {

/// The zoom factor is `1 + lines / ZOOM_DIVISOR`: each wheel line changes it
/// by a tenth.
pub const ZOOM_DIVISOR: i64 = 10;

/// Fixed denominator of the controller's transform: coefficients are kept
/// in millionths.
pub const UNIT: i128 = 1000000;

/// Smallest accepted scale, in millionths (a thousandth).
pub const MIN_SCALE: i128 = 1000;

/// Largest accepted scale, in millionths (a thousand).
pub const MAX_SCALE: i128 = 1000000000;

/// Largest accepted translation magnitude, in millionths of a pixel.
pub const MAX_OFFSET: i128 = 1000000000000000000000000000000;

/// `x / 10` rounded to the nearest integer, halves away from zero.
pub open spec fn round10(x: int) -> int {
    if x >= 0 {
        (x + 5) / 10
    } else {
        -((-x + 5) / 10)
    }
}

/// Rounding to tenths is off by at most a half.
pub proof fn lemma_round10(x: int)
    ensures
        -5 <= 10 * round10(x) - x <= 5,
{
}

fn round_div10(x: i128) -> (r: i128)
    requires
        -0x4000_0000_0000_0000_0000_0000_0000_0000 <= x <= 0x4000_0000_0000_0000_0000_0000_0000_0000,
    ensures
        r == round10(x as int),
{
    if x >= 0 {
        (x + 5) / 10
    } else {
        -((-x + 5) / 10)
    }
}

/// The transforms the controller produces: a uniform scale in
/// `[MIN_SCALE, MAX_SCALE]` and a translation of at most `MAX_OFFSET`, all
/// over the denominator `UNIT`.
pub open spec fn view_shape(t: Transform) -> bool {
    &&& t.den == UNIT
    &&& t.b == 0 && t.c == 0 && t.a == t.d
    &&& MIN_SCALE <= t.a <= MAX_SCALE
    &&& -MAX_OFFSET <= t.e <= MAX_OFFSET
    &&& -MAX_OFFSET <= t.f <= MAX_OFFSET
}

/// The untransformed view.
pub open spec fn initial_view() -> Transform {
    Transform { a: UNIT, b: 0, c: 0, d: UNIT, e: 0, f: 0, den: UNIT }
}

/// Owns the view transform and updates it from pointer input.
pub struct ViewController {
    transform: Transform,
}

impl View for ViewController {
    type V = Transform;

    closed spec fn view(&self) -> Transform {
        self.transform
    }
}

/// Numerator of the zoom factor `1 + lines / 10` over the denominator 10.
pub open spec fn zoom_num(lines: int) -> int {
    ZOOM_DIVISOR + lines
}

/// The transform after zooming `t` by `1 + lines / 10` about `(sx, sy)`,
/// each coefficient rounded to the nearest millionth.
pub open spec fn zoomed(t: Transform, sx: int, sy: int, lines: int) -> Transform {
    let n = zoom_num(lines);
    let s = round10(n * t.a) as i128;
    Transform {
        a: s,
        b: 0,
        c: 0,
        d: s,
        e: round10(n * t.e + (ZOOM_DIVISOR - n) * (sx * UNIT)) as i128,
        f: round10(n * t.f + (ZOOM_DIVISOR - n) * (sy * UNIT)) as i128,
        den: UNIT,
    }
}

/// Whether a wheel movement of `lines` at `(sx, sy)` is applied to `t`: the
/// factor must be positive and the new scale and translation in range.
pub open spec fn zoom_accepted(t: Transform, sx: int, sy: int, lines: int) -> bool {
    let n = zoom_num(lines);
    &&& n > 0
    &&& MIN_SCALE <= round10(n * t.a) <= MAX_SCALE
    &&& -MAX_OFFSET <= round10(n * t.e + (ZOOM_DIVISOR - n) * (sx * UNIT)) <= MAX_OFFSET
    &&& -MAX_OFFSET <= round10(n * t.f + (ZOOM_DIVISOR - n) * (sy * UNIT)) <= MAX_OFFSET
}

/// Whether a drag by `(dx, dy)` keeps the translation of `t` in range.
pub open spec fn pan_accepted(t: Transform, dx: int, dy: int) -> bool {
    &&& -MAX_OFFSET <= t.e + dx * UNIT <= MAX_OFFSET
    &&& -MAX_OFFSET <= t.f + dy * UNIT <= MAX_OFFSET
}

/// A zoom whose new scale is at most `MAX_SCALE`, from a scale of at least
/// `MIN_SCALE`, has a bounded factor.
proof fn lemma_factor_bounded(n: int, a: int)
    requires
        n > 0,
        MIN_SCALE <= a,
        round10(n * a) <= MAX_SCALE,
    ensures
        n <= 10000001,
{
    lemma_round10(n * a);
    assert(n * a <= 10 * MAX_SCALE + 5);
    assert(n <= 10000001) by (nonlinear_arith)
        requires n * a <= 10000000005, 1000 <= a, n > 0;
}

impl ViewController {
    #[verifier::type_invariant]
    spec fn inv(self) -> bool {
        view_shape(self.transform)
    }

    /// A controller showing the view untransformed.
    pub fn new() -> (r: ViewController)
        ensures
            r@ == initial_view(),
    {
        ViewController { transform: Transform { a: UNIT, b: 0, c: 0, d: UNIT, e: 0, f: 0, den: UNIT } }
    }

    /// The current transform.
    pub fn transform(&self) -> (r: Transform)
        ensures
            r == self@,
            view_shape(r),
            r.wf(),
    {
        proof {
            use_type_invariant(self);
            assert(self.transform.a * self.transform.d > 0) by (nonlinear_arith)
                requires self.transform.a == self.transform.d, self.transform.a > 0;
        }
        self.transform
    }

    /// Drags the view by the screen-space delta `(dx, dy)`, so that the
    /// view-space point under the cursor follows it exactly. Returns whether
    /// the drag was applied; one that would take the translation past
    /// `MAX_OFFSET` leaves the transform as it was.
    pub fn pan(&mut self, dx: i64, dy: i64) -> (r: bool)
        ensures
            r == pan_accepted(old(self)@, dx as int, dy as int),
            r ==> final(self)@ == old(self)@.shifted(dx as int, dy as int),
            !r ==> final(self)@ == old(self)@,
    {
        proof {
            use_type_invariant(&*self);
        }
        assert(-0x10_0000_0000_0000_0000_0000_0000 <= dx * UNIT <= 0x10_0000_0000_0000_0000_0000_0000) by (nonlinear_arith)
            requires i64::MIN <= dx <= i64::MAX;
        assert(-0x10_0000_0000_0000_0000_0000_0000 <= dy * UNIT <= 0x10_0000_0000_0000_0000_0000_0000) by (nonlinear_arith)
            requires i64::MIN <= dy <= i64::MAX;
        let e = self.transform.e + dx as i128 * UNIT;
        let f = self.transform.f + dy as i128 * UNIT;
        if e < -MAX_OFFSET || e > MAX_OFFSET || f < -MAX_OFFSET || f > MAX_OFFSET {
            return false;
        }
        self.transform = Transform { e, f, ..self.transform };
        true
    }

    /// Zooms by the factor `1 + lines / 10` about the screen point
    /// `(sx, sy)`, which stays over the same view-space point up to the
    /// rounding of each coefficient to a millionth. A movement whose factor
    /// is not positive, or that would take the scale out of
    /// `[MIN_SCALE, MAX_SCALE]` or the translation past `MAX_OFFSET`, is
    /// rejected and leaves the transform as it was.
    pub fn zoom_about(&mut self, sx: i64, sy: i64, lines: i32) -> (r: bool)
        ensures
            r == zoom_accepted(old(self)@, sx as int, sy as int, lines as int),
            r ==> final(self)@ == zoomed(old(self)@, sx as int, sy as int, lines as int),
            !r ==> final(self)@ == old(self)@,
    {
        proof {
            use_type_invariant(&*self);
        }
        let n: i128 = ZOOM_DIVISOR as i128 + lines as i128;
        if n <= 0 {
            return false;
        }
        let t = self.transform;
        assert(0 < n * t.a <= 0x1_0000_0000_0000_0000) by (nonlinear_arith)
            requires 0 < n <= 0x1_0000_0000, 0 < t.a <= MAX_SCALE;
        let s = round_div10(n * t.a);
        if s < MIN_SCALE || s > MAX_SCALE {
            return false;
        }
        proof {
            lemma_factor_bounded(n as int, t.a as int);
        }
        let k = ZOOM_DIVISOR as i128 - n;
        assert(-0x2000_0000_0000_0000_0000_0000_0000_0000 <= n * t.e <= 0x2000_0000_0000_0000_0000_0000_0000_0000)
            by (nonlinear_arith)
            requires 0 < n <= 10000001, -MAX_OFFSET <= t.e <= MAX_OFFSET;
        assert(-0x2000_0000_0000_0000_0000_0000_0000_0000 <= n * t.f <= 0x2000_0000_0000_0000_0000_0000_0000_0000)
            by (nonlinear_arith)
            requires 0 < n <= 10000001, -MAX_OFFSET <= t.f <= MAX_OFFSET;
        assert(-0x10_0000_0000_0000_0000_0000 <= sx * UNIT <= 0x10_0000_0000_0000_0000_0000)
            by (nonlinear_arith)
            requires i64::MIN <= sx <= i64::MAX;
        assert(-0x10_0000_0000_0000_0000_0000 <= sy * UNIT <= 0x10_0000_0000_0000_0000_0000)
            by (nonlinear_arith)
            requires i64::MIN <= sy <= i64::MAX;
        let px = sx as i128 * UNIT;
        let py = sy as i128 * UNIT;
        assert(-0x2000_0000_0000_0000_0000_0000_0000_0000 <= k * px <= 0x2000_0000_0000_0000_0000_0000_0000_0000)
            by (nonlinear_arith)
            requires -10000001 <= k <= 10, -0x10_0000_0000_0000_0000_0000 <= px <= 0x10_0000_0000_0000_0000_0000;
        assert(-0x2000_0000_0000_0000_0000_0000_0000_0000 <= k * py <= 0x2000_0000_0000_0000_0000_0000_0000_0000)
            by (nonlinear_arith)
            requires -10000001 <= k <= 10, -0x10_0000_0000_0000_0000_0000 <= py <= 0x10_0000_0000_0000_0000_0000;
        let e = round_div10(n * t.e + k * px);
        let f = round_div10(n * t.f + k * py);
        if e < -MAX_OFFSET || e > MAX_OFFSET || f < -MAX_OFFSET || f > MAX_OFFSET {
            return false;
        }
        self.transform = Transform { a: s, b: 0, c: 0, d: s, e, f, den: UNIT };
        true
    }
}

} // verus!
