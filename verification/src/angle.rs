//! Angles as integers, in millionths of a degree, and the shortest-turn
//! rule every steering behaviour funnels through.

use vstd::prelude::*;

verus! {

/// Angle units in a full turn; one unit is a microdegree.
pub const ANGLE_FULL: i64 = 360_000_000;

/// Angle units in a half turn.
pub const ANGLE_HALF: i64 = 180_000_000;

/// Angle units in a quarter turn.
pub const ANGLE_QUARTER: i64 = 90_000_000;

/// Steering strength is a fraction with this denominator: `STRENGTH_ONE`
/// turns a boid exactly onto its target in one call.
pub const STRENGTH_ONE: i64 = 1000;

/// A stored angle: at least zero and less than a full turn.
pub open spec fn angle_wf(a: int) -> bool {
    0 <= a < ANGLE_FULL
}

/// The representative in [0, full turn) of an angle off by at most one turn.
pub open spec fn spec_norm_angle(a: int) -> int {
    if a < 0 {
        a + ANGLE_FULL
    } else if a >= ANGLE_FULL {
        a - ANGLE_FULL
    } else {
        a
    }
}

/// Brings an angle that is off by at most one turn back into [0, full turn).
pub fn norm_angle(a: i64) -> (r: i64)
    requires
        -ANGLE_FULL <= a < 2 * ANGLE_FULL,
    ensures
        r == spec_norm_angle(a as int),
        angle_wf(r as int),
{
    if a < 0 {
        a + ANGLE_FULL
    } else if a >= ANGLE_FULL {
        a - ANGLE_FULL
    } else {
        a
    }
}

/// The signed angular distance from heading `theta` to heading `phi`:
/// the unique value in [-half turn, half turn) congruent to `phi - theta`.
/// Positive means the shortest way round is counter-clockwise, negative
/// clockwise; a target exactly behind resolves to clockwise.
pub open spec fn spec_shortest_diff(phi: int, theta: int) -> int {
    let d = phi - theta;
    if d < -ANGLE_HALF {
        d + ANGLE_FULL
    } else if d >= ANGLE_HALF {
        d - ANGLE_FULL
    } else {
        d
    }
}

/// Signed shortest turn from heading `theta` onto heading `phi`.
pub fn shortest_diff(phi: i64, theta: i64) -> (d: i64)
    requires
        angle_wf(phi as int),
        angle_wf(theta as int),
    ensures
        d == spec_shortest_diff(phi as int, theta as int),
        -ANGLE_HALF <= d < ANGLE_HALF,
        d == 0 <==> phi == theta,
{
    let d0 = phi - theta;
    if d0 < -ANGLE_HALF {
        d0 + ANGLE_FULL
    } else if d0 >= ANGLE_HALF {
        d0 - ANGLE_FULL
    } else {
        d0
    }
}

/// The shortest-turn direction rule, stated over the offset `e` from the
/// current heading to the target heading: a target less than a half turn
/// counter-clockwise of the heading is turned toward counter-clockwise
/// (positive), one more than a half turn away clockwise (negative), and a
/// target exactly behind resolves deterministically to clockwise.
pub proof fn lemma_shortest_turn_direction(theta: int, e: int)
    requires
        angle_wf(theta),
        0 <= e < ANGLE_FULL,
    ensures
        0 < e < ANGLE_HALF ==> spec_shortest_diff(spec_norm_angle(theta + e), theta) == e,
        e > ANGLE_HALF ==> spec_shortest_diff(spec_norm_angle(theta + e), theta) == e - ANGLE_FULL
            < 0,
        e == ANGLE_HALF ==> spec_shortest_diff(spec_norm_angle(theta + e), theta) == -ANGLE_HALF,
        e == 0 ==> spec_shortest_diff(spec_norm_angle(theta + e), theta) == 0,
{
}

/// The turn applied for a signed angular distance `d` and a strength
/// `s`: `d * s / STRENGTH_ONE`, rounded toward zero so that clockwise and
/// counter-clockwise turns shrink symmetrically.
pub open spec fn spec_scale_turn(d: int, s: int) -> int {
    crate::fxp::div_trunc(d * s, STRENGTH_ONE as int)
}

/// Scales a signed angular distance by a strength fraction. The turn never
/// overshoots the distance and never flips its direction.
pub fn scale_turn(d: i64, s: i64) -> (t: i64)
    requires
        -ANGLE_HALF <= d <= ANGLE_HALF,
        0 <= s <= STRENGTH_ONE,
    ensures
        t == spec_scale_turn(d as int, s as int),
        d >= 0 ==> 0 <= t <= d,
        d <= 0 ==> d <= t <= 0,
        s == STRENGTH_ONE ==> t == d,
{
    proof {
        assert((-ANGLE_HALF) * STRENGTH_ONE <= d * s <= ANGLE_HALF * STRENGTH_ONE)
            by (nonlinear_arith)
            requires
                -ANGLE_HALF <= d <= ANGLE_HALF,
                0 <= s <= STRENGTH_ONE;
    }
    let t: i64 = if d >= 0 {
        (d * s) / STRENGTH_ONE
    } else {
        -((-(d * s)) / STRENGTH_ONE)
    };
    proof {
        lemma_scale_turn_shrinks(d as int, s as int);
    }
    t
}

/// Scaling by a strength of at most one keeps the turn between zero and
/// the full angular distance.
proof fn lemma_scale_turn_shrinks(d: int, s: int)
    requires
        -ANGLE_HALF <= d <= ANGLE_HALF,
        0 <= s <= STRENGTH_ONE,
    ensures
        d >= 0 ==> 0 <= spec_scale_turn(d, s) <= d,
        d <= 0 ==> d <= spec_scale_turn(d, s) <= 0,
        s == STRENGTH_ONE ==> spec_scale_turn(d, s) == d,
{
    let k = STRENGTH_ONE as int;
    if d >= 0 {
        assert(0 <= d * s <= d * k) by (nonlinear_arith)
            requires
                0 <= d,
                0 <= s <= k;
        vstd::arithmetic::div_mod::lemma_div_pos_is_pos(d * s, k);
        vstd::arithmetic::div_mod::lemma_div_is_ordered(d * s, d * k, k);
        vstd::arithmetic::div_mod::lemma_div_by_multiple(d, k);
        assert((d * k) / k == (k * d) / k) by (nonlinear_arith);
    } else {
        assert(0 <= (-d) * s <= (-d) * k) by (nonlinear_arith)
            requires
                d <= 0,
                0 <= s <= k;
        vstd::arithmetic::div_mod::lemma_div_pos_is_pos((-d) * s, k);
        vstd::arithmetic::div_mod::lemma_div_is_ordered((-d) * s, (-d) * k, k);
        vstd::arithmetic::div_mod::lemma_div_by_multiple(-d, k);
        assert(((-d) * k) / k == (k * (-d)) / k) by (nonlinear_arith);
        assert(d * s == -((-d) * s)) by (nonlinear_arith);
    }
}

} // verus!
