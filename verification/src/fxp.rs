//! Fixed-point scale constants and helpers for widened integer arithmetic.

use vstd::prelude::*;

verus! {

/// Sub-units per world unit: positions, speeds and ranges are integer
/// multiples of one millionth of a world unit.
pub const SCALE: i64 = 1_000_000;

/// Largest coordinate magnitude a well-formed boid may hold.
pub const POS_MAX: i64 = 1_000_000_000_000_000;

/// Coordinates of this magnitude or less stay below `POS_MAX` after one
/// movement step.
pub const POS_SAFE: i64 = 999_000_000_000_000;

/// Largest speed, in sub-units per tick, a well-formed boid may hold.
pub const SPEED_MAX: i64 = 1_000_000_000;

/// Largest sight or avoidance range the settings may hold.
pub const RANGE_MAX: i64 = 1_000_000_000_000;

/// Integer division rounding toward zero, as `/` on machine integers does.
pub open spec fn div_trunc(a: int, b: int) -> int {
    if a >= 0 {
        a / b
    } else {
        -((-a) / b)
    }
}

/// Widening product of two machine integers.
pub fn mul_wide(a: i64, b: i64) -> (r: i128)
    ensures
        r == a as int * b as int,
{
    proof {
        assert((i128::MIN as int) < (a as int) * (b as int) && (a as int) * (b as int) < (i128::MAX as int)) by (nonlinear_arith)
            requires
                i64::MIN <= a <= i64::MAX,
                i64::MIN <= b <= i64::MAX;
    }
    (a as i128) * (b as i128)
}

/// Division of a widened value, rounding toward zero.
pub fn div_wide_trunc(a: i128, b: i128) -> (r: i128)
    requires
        b >= 1,
        a > i128::MIN,
    ensures
        r == div_trunc(a as int, b as int),
{
    if a >= 0 {
        a / b
    } else {
        -((-a) / b)
    }
}

/// The quotient is no larger in magnitude than any bound the dividend's
/// magnitude is a `b`-multiple of.
pub proof fn lemma_div_trunc_bound(a: int, b: int, m: int)
    requires
        b >= 1,
        m >= 0,
        -(b * m) <= a <= b * m,
    ensures
        -m <= div_trunc(a, b) <= m,
{
    if a >= 0 {
        assert(a / b <= (b * m) / b) by {
            vstd::arithmetic::div_mod::lemma_div_is_ordered(a, b * m, b);
        }
        assert((b * m) / b == m) by {
            vstd::arithmetic::div_mod::lemma_div_by_multiple(m, b);
        }
        assert(a / b >= 0) by {
            vstd::arithmetic::div_mod::lemma_div_pos_is_pos(a, b);
        }
    } else {
        assert((-a) / b <= (b * m) / b) by {
            vstd::arithmetic::div_mod::lemma_div_is_ordered(-a, b * m, b);
        }
        assert((b * m) / b == m) by {
            vstd::arithmetic::div_mod::lemma_div_by_multiple(m, b);
        }
        assert((-a) / b >= 0) by {
            vstd::arithmetic::div_mod::lemma_div_pos_is_pos(-a, b);
        }
    }
}

} // verus!
