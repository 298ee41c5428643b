//! Analog shaping: the final transform from a raw fixed-point 2D vector to
//! bounded stick output coordinates, either circularized (radius capped at
//! one full deflection, or lower under the soft limit) or linear with
//! overshoot correction (direction preserved, magnitude pulled back to the
//! unit square boundary).

use vstd::prelude::*;
use vstd::arithmetic::div_mod::{
    lemma_div_is_ordered,
    lemma_div_multiples_vanish,
    lemma_div_pos_is_pos,
    lemma_fundamental_div_mod,
    lemma_mod_bound,
};
use vstd::arithmetic::mul::{lemma_mul_inequality, lemma_mul_upper_bound};

verus! {

/// One full stick deflection in fixed-point micro-units.
pub const SCALE: i64 = 1_000_000;

/// Magnitude of the minimum representable signed 16-bit value: the target
/// range of a shaped axis.
pub const AXIS_MAX: i64 = 32768;

/// Largest coordinate magnitude the shaping engine accepts; keeps all
/// intermediate products within 128 bits.
pub const COORD_LIMIT: i64 = 8_000_000_000_000_000;

/// Absolute value of a mathematical integer.
pub open spec fn abs_int(v: int) -> int {
    if v >= 0 {
        v
    } else {
        -v
    }
}

/// Maximum of two mathematical integers.
pub open spec fn max_int(a: int, b: int) -> int {
    if a >= b {
        a
    } else {
        b
    }
}

/// `v * num / den` with truncation toward zero (`num >= 0`, `den > 0`).
pub open spec fn mul_div_spec(v: int, num: int, den: int) -> int {
    if v >= 0 {
        (v * num) / den
    } else {
        -((-v * num) / den)
    }
}

/// Saturate a mathematical integer into the signed 16-bit range.
pub open spec fn clamp_axis_spec(v: int) -> i16 {
    if v > 32767 {
        32767i16
    } else if v < -32768 {
        -32768i16
    } else {
        v as i16
    }
}

/// The integer square root: largest `r` with `r * r <= n`.
pub open spec fn isqrt_spec(n: nat) -> nat
    decreases n,
{
    if n == 0 {
        0
    } else {
        let r = isqrt_spec((n - 1) as nat);
        if (r + 1) * (r + 1) <= n {
            r + 1
        } else {
            r
        }
    }
}

/// [`isqrt_spec`] is indeed the integer square root.
pub proof fn lemma_isqrt_bounds(n: nat)
    ensures
        isqrt_spec(n) * isqrt_spec(n) <= n,
        n < (isqrt_spec(n) + 1) * (isqrt_spec(n) + 1),
    decreases n,
{
    if n > 0 {
        lemma_isqrt_bounds((n - 1) as nat);
        let r = isqrt_spec((n - 1) as nat);
        if (r + 1) * (r + 1) <= n {
            assert(isqrt_spec(n) == r + 1);
            assert((r + 1) * (r + 1) < (r + 2) * (r + 2)) by (nonlinear_arith)
                requires
                    r >= 0,
            ;
            assert((isqrt_spec(n) + 1) * (isqrt_spec(n) + 1) == (r + 2) * (r + 2));
        } else {
            assert(isqrt_spec(n) == r);
        }
    } else {
        assert(isqrt_spec(n) == 0);
        assert((isqrt_spec(n) + 1) * (isqrt_spec(n) + 1) == 1) by (nonlinear_arith)
            requires
                isqrt_spec(n) == 0,
        ;
    }
}

/// The two square bounds determine the root uniquely.
pub proof fn lemma_isqrt_unique(n: nat, r: nat)
    requires
        r * r <= n,
        n < (r + 1) * (r + 1),
    ensures
        r == isqrt_spec(n),
{
    let s = isqrt_spec(n);
    lemma_isqrt_bounds(n);
    if r < s {
        assert((r + 1) * (r + 1) <= s * s) by (nonlinear_arith)
            requires
                0 <= r,
                r + 1 <= s,
        ;
    }
    if s < r {
        assert((s + 1) * (s + 1) <= r * r) by (nonlinear_arith)
            requires
                0 <= s,
                s + 1 <= r,
        ;
    }
}

/// A quotient of a bounded product is bounded: if `|v| <= vb` and
/// `vb * num <= den * c` then `|v * num / den| <= c`.
pub proof fn lemma_mul_div_bound(v: int, num: int, den: int, vb: int, c: int)
    requires
        0 < den,
        0 <= num,
        abs_int(v) <= vb,
        vb * num <= den * c,
        0 <= c,
    ensures
        abs_int(mul_div_spec(v, num, den)) <= c,
        0 <= v ==> 0 <= mul_div_spec(v, num, den),
        v <= 0 ==> mul_div_spec(v, num, den) <= 0,
{
    lemma_div_multiples_vanish(c, den);
    assert(den * c == c * den) by (nonlinear_arith);
    if v >= 0 {
        lemma_mul_inequality(v, vb, num);
        lemma_div_is_ordered(v * num, den * c, den);
        assert(0 <= v * num) by (nonlinear_arith)
            requires
                0 <= v,
                0 <= num,
        ;
        lemma_div_pos_is_pos(v * num, den);
        assert(mul_div_spec(v, num, den) == (v * num) / den);
        if v == 0 {
            assert(v * num == 0) by (nonlinear_arith)
                requires
                    v == 0,
            ;
            lemma_div_multiples_vanish(0, den);
        }
    } else {
        let m = -v;
        lemma_mul_inequality(m, vb, num);
        lemma_div_is_ordered(m * num, den * c, den);
        assert(0 <= m * num) by (nonlinear_arith)
            requires
                0 <= m,
                0 <= num,
        ;
        lemma_div_pos_is_pos(m * num, den);
        assert(mul_div_spec(v, num, den) == -((m * num) / den));
    }
}

/// A zero numerator scales to zero.
pub proof fn lemma_mul_div_zero(num: int, den: int)
    requires
        0 < den,
    ensures
        mul_div_spec(0, num, den) == 0,
{
    assert(0 * num == 0) by (nonlinear_arith);
    lemma_div_multiples_vanish(0, den);
}

/// Computes `v * num / den` (truncating toward zero) on magnitudes that fit
/// comfortably in 128 bits.
pub fn mul_div(v: i64, num: u64, den: u128) -> (r: i64)
    requires
        den > 0,
        abs_int(v as int) <= 0x7fff_ffff_ffff_ffff,
        abs_int(v as int) * num / (den as int) <= i64::MAX,
    ensures
        r == mul_div_spec(v as int, num as int, den as int),
{
    if v >= 0 {
        proof {
            lemma_mul_upper_bound(v as int, 0x7fff_ffff_ffff_ffffint, num as int, u64::MAX as int);
        }
        let q: u128 = (v as u128) * (num as u128) / den;
        q as i64
    } else {
        let m: u128 = (-(v as i128)) as u128;
        proof {
            assert(m == -(v as int));
            lemma_mul_upper_bound(m as int, 0x7fff_ffff_ffff_ffffint, num as int, u64::MAX as int);
        }
        let q: u128 = m * (num as u128) / den;
        proof {
            assert(q == (-(v as int) * num) / (den as int));
        }
        -(q as i64)
    }
}

/// Saturate into the signed 16-bit range.
pub fn clamp_axis(v: i64) -> (r: i16)
    ensures
        r == clamp_axis_spec(v as int),
{
    if v > 32767 {
        32767
    } else if v < -32768 {
        -32768
    } else {
        v as i16
    }
}

/// Squared length of the vector.
pub open spec fn hypot_sq(x: int, y: int) -> int {
    x * x + y * y
}

/// Linear shaping before saturation: inside the unit square the direct
/// per-axis scale to `AXIS_MAX`; outside it, both axes divided by the
/// overshoot `max(|x|, |y|)`, preserving direction while pulling the vector
/// back onto the unit square boundary.
#[verifier::opaque]
pub open spec fn shape_linear_spec(x: int, y: int) -> (int, int) {
    let ov = max_int(abs_int(x), abs_int(y));
    if ov <= SCALE as int {
        (mul_div_spec(x, AXIS_MAX as int, SCALE as int), mul_div_spec(y, AXIS_MAX as int, SCALE as int))
    } else {
        (mul_div_spec(x, AXIS_MAX as int, ov), mul_div_spec(y, AXIS_MAX as int, ov))
    }
}

/// Circularized shaping before saturation: radius is capped at
/// `min(hypot, limit)`, so inside the limit circle the vector scales
/// directly, and outside it both axes are scaled by `limit / hypot`.
#[verifier::opaque]
pub open spec fn shape_circular_spec(x: int, y: int, limit: int) -> (int, int) {
    let h = isqrt_spec(hypot_sq(x, y) as nat) as int;
    if h <= limit {
        (mul_div_spec(x, AXIS_MAX as int, SCALE as int), mul_div_spec(y, AXIS_MAX as int, SCALE as int))
    } else {
        (
            mul_div_spec(x, limit * (AXIS_MAX as int), h * (SCALE as int)),
            mul_div_spec(y, limit * (AXIS_MAX as int), h * (SCALE as int)),
        )
    }
}

/// Magnitude of `v` as unsigned, for `|v| <= COORD_LIMIT`.
fn coord_abs(v: i64) -> (r: u64)
    requires
        -COORD_LIMIT <= v <= COORD_LIMIT,
    ensures
        r == abs_int(v as int),
{
    if v >= 0 {
        v as u64
    } else {
        (-(v as i128)) as u64
    }
}

/// Shapes a vector linearly with overshoot correction and saturates each
/// axis into stick range.
pub fn shape_linear(x: i64, y: i64) -> (r: (i16, i16))
    requires
        -COORD_LIMIT <= x <= COORD_LIMIT,
        -COORD_LIMIT <= y <= COORD_LIMIT,
    ensures
        r.0 == clamp_axis_spec(shape_linear_spec(x as int, y as int).0),
        r.1 == clamp_axis_spec(shape_linear_spec(x as int, y as int).1),
{
    proof {
        reveal(shape_linear_spec);
    }
    let ax = coord_abs(x);
    let ay = coord_abs(y);
    let ov = if ax >= ay {
        ax
    } else {
        ay
    };
    if ov <= SCALE as u64 {
        proof {
            lemma_mul_div_bound(x as int, AXIS_MAX as int, SCALE as int, SCALE as int, AXIS_MAX as int);
            lemma_mul_div_bound(y as int, AXIS_MAX as int, SCALE as int, SCALE as int, AXIS_MAX as int);
        }
        let rx = mul_div(x, AXIS_MAX as u64, SCALE as u128);
        let ry = mul_div(y, AXIS_MAX as u64, SCALE as u128);
        (clamp_axis(rx), clamp_axis(ry))
    } else {
        proof {
            lemma_mul_div_bound(x as int, AXIS_MAX as int, ov as int, ov as int, AXIS_MAX as int);
            lemma_mul_div_bound(y as int, AXIS_MAX as int, ov as int, ov as int, AXIS_MAX as int);
        }
        let rx = mul_div(x, AXIS_MAX as u64, ov as u128);
        let ry = mul_div(y, AXIS_MAX as u64, ov as u128);
        (clamp_axis(rx), clamp_axis(ry))
    }
}

/// The integer square root of `n`, by binary search.
pub fn isqrt(n: u128) -> (r: u64)
    ensures
        r == isqrt_spec(n as nat),
        (r as int) * (r as int) <= n,
        n < (r as int + 1) * (r as int + 1),
{
    let mut lo: u128 = 0;
    let mut hi: u128 = 0x1_0000_0000_0000_0000;
    proof {
        assert((hi as int) * (hi as int) > n as int) by (nonlinear_arith)
            requires
                hi == 0x1_0000_0000_0000_0000u128,
                n <= u128::MAX,
        ;
    }
    while hi - lo > 1
        invariant
            lo < hi <= 0x1_0000_0000_0000_0000u128,
            (lo as int) * (lo as int) <= n as int,
            (hi as int) * (hi as int) > n as int,
        decreases hi - lo,
    {
        let mid = lo + (hi - lo) / 2;
        proof {
            lemma_mul_upper_bound(
                mid as int,
                0xffff_ffff_ffff_ffffint,
                mid as int,
                0xffff_ffff_ffff_ffffint,
            );
        }
        let sq = mid * mid;
        if sq <= n {
            lo = mid;
        } else {
            hi = mid;
        }
    }
    proof {
        lemma_isqrt_unique(n as nat, lo as nat);
    }
    lo as u64
}

/// Shapes a vector through circularization with radius cap `limit` and
/// saturates each axis into stick range.
pub fn shape_circular(x: i64, y: i64, limit: i64) -> (r: (i16, i16))
    requires
        -COORD_LIMIT <= x <= COORD_LIMIT,
        -COORD_LIMIT <= y <= COORD_LIMIT,
        0 <= limit <= SCALE,
    ensures
        r.0 == clamp_axis_spec(shape_circular_spec(x as int, y as int, limit as int).0),
        r.1 == clamp_axis_spec(shape_circular_spec(x as int, y as int, limit as int).1),
{
    let ax = coord_abs(x);
    let ay = coord_abs(y);
    proof {
        reveal(shape_circular_spec);
        assert((ax as int) * (ax as int) == (x as int) * (x as int)) by (nonlinear_arith)
            requires
                ax == abs_int(x as int),
        ;
        assert((ay as int) * (ay as int) == (y as int) * (y as int)) by (nonlinear_arith)
            requires
                ay == abs_int(y as int),
        ;
        lemma_mul_upper_bound(ax as int, COORD_LIMIT as int, ax as int, COORD_LIMIT as int);
        lemma_mul_upper_bound(ay as int, COORD_LIMIT as int, ay as int, COORD_LIMIT as int);
    }
    let hsq: u128 = (ax as u128) * (ax as u128) + (ay as u128) * (ay as u128);
    let h = isqrt(hsq);
    proof {
        assert(hsq == hypot_sq(x as int, y as int));
        // The root of the bounded squared length fits far within i64.
        assert(h <= 0x7fff_ffff_ffff_ffffu64) by (nonlinear_arith)
            requires
                (h as int) * (h as int) <= hsq,
                hsq <= 2 * (COORD_LIMIT as int) * (COORD_LIMIT as int),
                h >= 0,
        ;
        // Each component's magnitude is at most the hypotenuse root.
        assert(ax <= h && ay <= h) by (nonlinear_arith)
            requires
                hsq == (ax as int) * (ax as int) + (ay as int) * (ay as int),
                hsq < (h as int + 1) * (h as int + 1),
                h >= 0,
                ax >= 0,
                ay >= 0,
        ;
    }
    if (h as i64) <= limit {
        proof {
            lemma_mul_div_bound(x as int, AXIS_MAX as int, SCALE as int, SCALE as int, AXIS_MAX as int);
            lemma_mul_div_bound(y as int, AXIS_MAX as int, SCALE as int, SCALE as int, AXIS_MAX as int);
        }
        let rx = mul_div(x, AXIS_MAX as u64, SCALE as u128);
        let ry = mul_div(y, AXIS_MAX as u64, SCALE as u128);
        (clamp_axis(rx), clamp_axis(ry))
    } else {
        proof {
            assert(limit as u64 <= 1_000_000);
        }
        let num: u64 = (limit as u64) * (AXIS_MAX as u64);
        let den: u128 = (h as u128) * (SCALE as u128);
        proof {
            assert((h as int) * (SCALE as int) > 0) by (nonlinear_arith)
                requires
                    h >= 1,
            ;
            // |x| * (limit * AXIS_MAX) <= (h * SCALE) * AXIS_MAX, and the
            // same for y, so both quotients stay within AXIS_MAX.
            assert((ax as int) * ((limit as int) * (AXIS_MAX as int)) <= ((h as int) * (
            SCALE as int)) * (AXIS_MAX as int)) by (nonlinear_arith)
                requires
                    0 <= ax <= h,
                    0 <= limit <= SCALE as int,
                    h >= 0,
            ;
            assert((ay as int) * ((limit as int) * (AXIS_MAX as int)) <= ((h as int) * (
            SCALE as int)) * (AXIS_MAX as int)) by (nonlinear_arith)
                requires
                    0 <= ay <= h,
                    0 <= limit <= SCALE as int,
                    h >= 0,
            ;
            lemma_mul_div_bound(
                x as int,
                (limit as int) * (AXIS_MAX as int),
                (h as int) * (SCALE as int),
                ax as int,
                AXIS_MAX as int,
            );
            lemma_mul_div_bound(
                y as int,
                (limit as int) * (AXIS_MAX as int),
                (h as int) * (SCALE as int),
                ay as int,
                AXIS_MAX as int,
            );
        }
        let rx = mul_div(x, num, den);
        let ry = mul_div(y, num, den);
        (clamp_axis(rx), clamp_axis(ry))
    }
}

/// The linear-shaping law: inside the unit square the output is the direct
/// per-axis scale with no correction; outside it, each axis keeps its sign,
/// the dominant axis lands exactly on the boundary magnitude `AXIS_MAX`,
/// and each output differs from the exact direction-preserving projection
/// `v * AXIS_MAX / overshoot` by less than one part in `overshoot`.
pub proof fn lemma_linear_shaping(x: int, y: int)
    ensures
        max_int(abs_int(x), abs_int(y)) <= SCALE as int ==> shape_linear_spec(x, y) == (
            mul_div_spec(x, AXIS_MAX as int, SCALE as int),
            mul_div_spec(y, AXIS_MAX as int, SCALE as int),
        ),
        max_int(abs_int(x), abs_int(y)) > SCALE as int ==> ({
            let ov = max_int(abs_int(x), abs_int(y));
            let (ox, oy) = shape_linear_spec(x, y);
            &&& abs_int(x) == ov ==> abs_int(ox) == AXIS_MAX as int
            &&& abs_int(y) == ov ==> abs_int(oy) == AXIS_MAX as int
            &&& 0 <= x ==> 0 <= ox
            &&& x <= 0 ==> ox <= 0
            &&& 0 <= y ==> 0 <= oy
            &&& y <= 0 ==> oy <= 0
            &&& abs_int(ov * ox - x * (AXIS_MAX as int)) < ov
            &&& abs_int(ov * oy - y * (AXIS_MAX as int)) < ov
        }),
{
    reveal(shape_linear_spec);
    let ov = max_int(abs_int(x), abs_int(y));
    if ov > SCALE as int {
        lemma_axis_projection(x, ov);
        lemma_axis_projection(y, ov);
    }
}

/// One axis of the overshoot projection: sign kept, boundary hit exactly
/// when the axis attains the overshoot, and truncation error below one part
/// in `ov`.
proof fn lemma_axis_projection(v: int, ov: int)
    requires
        ov > 0,
        abs_int(v) <= ov,
    ensures
        ({
            let o = mul_div_spec(v, AXIS_MAX as int, ov);
            &&& abs_int(v) == ov ==> abs_int(o) == AXIS_MAX as int
            &&& 0 <= v ==> 0 <= o
            &&& v <= 0 ==> o <= 0
            &&& abs_int(ov * o - v * (AXIS_MAX as int)) < ov
        }),
{
    let a = AXIS_MAX as int;
    let m = abs_int(v);
    let q = (m * a) / ov;
    lemma_div_pos_is_pos(m * a, ov);
    assert(0 <= m * a) by (nonlinear_arith)
        requires
            0 <= m,
            0 <= a,
    ;
    lemma_fundamental_div_mod(m * a, ov);
    lemma_mod_bound(m * a, ov);
    if m == ov {
        lemma_div_multiples_vanish(a, ov);
        assert(ov * a == m * a) by (nonlinear_arith)
            requires
                m == ov,
        ;
    }
    if v >= 0 {
        assert(ov * q - v * a == -((m * a) % ov));
    } else {
        assert(ov * (-q) - v * a == (m * a) % ov) by (nonlinear_arith)
            requires
                m == -v,
                m * a == ov * q + (m * a) % ov,
        ;
    }
}

} // verus!
