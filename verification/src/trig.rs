//! Fixed-point trigonometry on microdegree angles.
//!
//! Sine and cosine are computed with Bhaskara's rational approximation,
//! exact at every quarter turn; headings are recovered from a vector with
//! an octant-reduced rational arctangent, exact on the axes and the
//! diagonals. Everything is plain integer arithmetic with proved bounds.

use vstd::prelude::*;

use crate::angle::ANGLE_FULL;
use crate::angle::ANGLE_HALF;
use crate::angle::ANGLE_QUARTER;
use crate::angle::angle_wf;
use crate::angle::norm_angle;
use crate::angle::spec_norm_angle;

verus! {

/// Scale of sine and cosine values: `TRIG_ONE` stands for one.
pub const TRIG_ONE: i64 = 1_000_000;

/// Largest vector component magnitude `heading_units` accepts.
pub const HEAD_MAX: i64 = 4_000_000_000_000_000;

/// Bhaskara's sine approximation on [0, half turn], scaled to `TRIG_ONE`,
/// with the angle first coarsened to millidegrees.
pub open spec fn spec_half_sin(x: int) -> int {
    let u = x / 1000;
    let p = u * (180_000 - u);
    (4 * p * 1_000_000) / (40_500_000_000 - p)
}

/// Sine of a stored angle, scaled to `TRIG_ONE`.
pub open spec fn spec_sin(a: int) -> int {
    if a < ANGLE_HALF {
        spec_half_sin(a)
    } else {
        -spec_half_sin(a - ANGLE_HALF)
    }
}

/// Cosine of a stored angle, scaled to `TRIG_ONE`.
pub open spec fn spec_cos(a: int) -> int {
    spec_sin(spec_norm_angle(a + ANGLE_QUARTER))
}

/// Sine on the first half turn, where it is nonnegative.
fn half_sin(x: i64) -> (r: i64)
    requires
        0 <= x <= ANGLE_HALF,
    ensures
        r == spec_half_sin(x as int),
        0 <= r <= TRIG_ONE,
{
    let u: i64 = x / 1000;
    assert(0 <= u <= 180_000) by {
        vstd::arithmetic::div_mod::lemma_div_pos_is_pos(x as int, 1000);
        vstd::arithmetic::div_mod::lemma_div_is_ordered(x as int, 180_000_000, 1000);
        assert(180_000_000int / 1000 == 180_000);
    }
    proof {
        assert(0 <= u * (180_000 - u) <= 8_100_000_000) by (nonlinear_arith)
            requires
                0 <= u <= 180_000;
    }
    let p: i64 = u * (180_000 - u);
    let num: i64 = 4 * p * 1_000_000;
    let den: i64 = 40_500_000_000 - p;
    let r: i64 = num / den;
    assert(0 <= r && r <= TRIG_ONE) by {
        vstd::arithmetic::div_mod::lemma_div_pos_is_pos(num as int, den as int);
        vstd::arithmetic::div_mod::lemma_multiply_divide_le(num as int, den as int, TRIG_ONE as int);
    }
    r
}

/// Sine of a stored angle.
pub fn sin_units(a: i64) -> (r: i64)
    requires
        angle_wf(a as int),
    ensures
        r == spec_sin(a as int),
        -TRIG_ONE <= r <= TRIG_ONE,
{
    if a < ANGLE_HALF {
        half_sin(a)
    } else {
        -half_sin(a - ANGLE_HALF)
    }
}

/// Cosine of a stored angle.
pub fn cos_units(a: i64) -> (r: i64)
    requires
        angle_wf(a as int),
    ensures
        r == spec_cos(a as int),
        -TRIG_ONE <= r <= TRIG_ONE,
{
    sin_units(norm_angle(a + ANGLE_QUARTER))
}

/// Rational arctangent on the first octant, scaled to microdegrees: for
/// `0 <= n <= d` it approximates the angle whose tangent is `n / d`.
pub open spec fn spec_atan_octant(n: int, d: int) -> int {
    let z = (n * 1000) / d;
    45_000 * z + (1564 * (z * (1000 - z))) / 100
}

/// Heading angle of the vector `(dx, dy)`, in [0, full turn): octant
/// reduction around the axes and diagonals over `spec_atan_octant`.
pub open spec fn spec_heading(dx: int, dy: int) -> int {
    let ax = if dx >= 0 { dx } else { -dx };
    let ay = if dy >= 0 { dy } else { -dy };
    let base = if ax >= ay {
        spec_atan_octant(ay, ax)
    } else {
        ANGLE_QUARTER - spec_atan_octant(ax, ay)
    };
    let q = if dx >= 0 && dy >= 0 {
        base
    } else if dx < 0 && dy >= 0 {
        ANGLE_HALF - base
    } else if dx < 0 {
        ANGLE_HALF + base
    } else {
        ANGLE_FULL - base
    };
    if q == ANGLE_FULL {
        0
    } else {
        q
    }
}

/// Arctangent on the first octant; the result never leaves [0, an eighth
/// of a turn].
fn atan_octant(n: i64, d: i64) -> (r: i64)
    requires
        0 <= n <= d,
        1 <= d <= HEAD_MAX,
    ensures
        r == spec_atan_octant(n as int, d as int),
        0 <= r <= 45_000_000,
{
    let z: i64 = (n * 1000) / d;
    assert(0 <= z <= 1000) by {
        vstd::arithmetic::div_mod::lemma_div_pos_is_pos((n * 1000) as int, d as int);
        vstd::arithmetic::div_mod::lemma_multiply_divide_le((n * 1000) as int, d as int, 1000);
        assert(n * 1000 <= d * 1000) by (nonlinear_arith)
            requires
                n <= d;
    }
    proof {
        assert(0 <= z * (1000 - z) <= 250_000) by (nonlinear_arith)
            requires
                0 <= z <= 1000;
    }
    let corr: i64 = (1564 * (z * (1000 - z))) / 100;
    let r: i64 = 45_000 * z + corr;
    assert(r <= 45_000_000) by {
        assert(1564 * (z * (1000 - z)) <= 100 * (45_000 * (1000 - z))) by (nonlinear_arith)
            requires
                0 <= z <= 1000;
        vstd::arithmetic::div_mod::lemma_multiply_divide_le(
            (1564 * (z * (1000 - z))) as int,
            100,
            (45_000 * (1000 - z)) as int,
        );
    }
    assert(corr >= 0) by {
        vstd::arithmetic::div_mod::lemma_div_pos_is_pos((1564 * (z * (1000 - z))) as int, 100);
    }
    r
}

/// Heading angle of a nonzero vector, in [0, full turn).
pub fn heading_units(dx: i64, dy: i64) -> (r: i64)
    requires
        !(dx == 0 && dy == 0),
        -HEAD_MAX <= dx <= HEAD_MAX,
        -HEAD_MAX <= dy <= HEAD_MAX,
    ensures
        r == spec_heading(dx as int, dy as int),
        angle_wf(r as int),
{
    let ax: i64 = if dx >= 0 { dx } else { -dx };
    let ay: i64 = if dy >= 0 { dy } else { -dy };
    let base: i64 = if ax >= ay {
        atan_octant(ay, ax)
    } else {
        ANGLE_QUARTER - atan_octant(ax, ay)
    };
    let q: i64 = if dx >= 0 && dy >= 0 {
        base
    } else if dx < 0 && dy >= 0 {
        ANGLE_HALF - base
    } else if dx < 0 {
        ANGLE_HALF + base
    } else {
        ANGLE_FULL - base
    };
    if q == ANGLE_FULL {
        0
    } else {
        q
    }
}

/// The heading of a vector on an axis or on the first diagonal is exact.
pub proof fn lemma_heading_axes(d: int)
    requires
        d >= 1,
    ensures
        spec_heading(d, 0) == 0,
        spec_heading(0, d) == ANGLE_QUARTER,
        spec_heading(-d, 0) == ANGLE_HALF,
        spec_heading(0, -d) == ANGLE_HALF + ANGLE_QUARTER,
        spec_heading(d, d) == ANGLE_QUARTER / 2,
{
    assert(spec_atan_octant(0, d) == 0) by {
        vstd::arithmetic::div_mod::lemma_div_of0(d);
        assert((0int * 1000) / d == 0int / d);
        vstd::arithmetic::div_mod::lemma_div_of0(100);
    }
    assert(spec_atan_octant(d, d) == 45_000_000) by {
        assert((d * 1000) / d == 1000) by {
            vstd::arithmetic::div_mod::lemma_div_multiples_vanish(1000, d);
            assert(d * 1000 == 1000 * d) by (nonlinear_arith);
        }
        vstd::arithmetic::div_mod::lemma_div_of0(100);
    }
}

/// Sine is exact at every quarter turn.
pub proof fn lemma_sin_quarter_turns()
    ensures
        spec_sin(0) == 0,
        spec_sin(ANGLE_QUARTER as int) == TRIG_ONE,
        spec_sin(ANGLE_HALF as int) == 0,
        spec_sin((ANGLE_HALF + ANGLE_QUARTER) as int) == -TRIG_ONE,
{
    assert(spec_half_sin(0) == 0) by {
        vstd::arithmetic::div_mod::lemma_div_of0(1000);
        vstd::arithmetic::div_mod::lemma_div_of0(40_500_000_000);
    }
    assert(spec_half_sin(ANGLE_QUARTER as int) == TRIG_ONE) by {
        assert(90_000_000int / 1000 == 90_000) by {
            vstd::arithmetic::div_mod::lemma_div_by_multiple(90_000, 1000);
        }
        assert(32_400_000_000_000_000int / 32_400_000_000 == 1_000_000) by {
            vstd::arithmetic::div_mod::lemma_div_by_multiple(1_000_000, 32_400_000_000);
        }
    }
}

} // verus!
