//! Two-dimensional fixed-point vectors and the geometric tests the
//! steering behaviours rely on: distance, side-of-line, and perpendicular
//! distance to a heading line.

use vstd::prelude::*;

use crate::fxp::mul_wide;

verus! {

/// A point or displacement in the plane, in sub-units.
#[derive(Clone, Copy, PartialEq, Eq, Structural, Debug)]
pub struct Vec2 {
    pub x: i64,
    pub y: i64,
}

/// Squared Euclidean distance between two points.
pub open spec fn spec_dist_sq(p: Vec2, q: Vec2) -> int {
    (p.x - q.x) * (p.x - q.x) + (p.y - q.y) * (p.y - q.y)
}

/// Whether `q` lies strictly within `range` of `p`, compared on squares
/// so no square root is ever taken.
pub open spec fn spec_within_range(p: Vec2, q: Vec2, range: int) -> bool {
    spec_dist_sq(p, q) < range * range
}

/// The cross product that `side_of_line` tests: positive when `p3` is to
/// the right of the directed line from `p1` through `p2`.
pub open spec fn spec_side_cross(p1: Vec2, p2: Vec2, p3: Vec2) -> int {
    (p3.x - p1.x) * (p2.y - p1.y) - (p3.y - p1.y) * (p2.x - p1.x)
}

/// Whether two points lie strictly within `range` of each other.
pub fn boid_is_nearby(p: Vec2, q: Vec2, range: i64) -> (r: bool)
    requires
        range >= 0,
        -2 * crate::fxp::POS_MAX <= p.x <= 2 * crate::fxp::POS_MAX,
        -2 * crate::fxp::POS_MAX <= p.y <= 2 * crate::fxp::POS_MAX,
        -2 * crate::fxp::POS_MAX <= q.x <= 2 * crate::fxp::POS_MAX,
        -2 * crate::fxp::POS_MAX <= q.y <= 2 * crate::fxp::POS_MAX,
    ensures
        r == spec_within_range(p, q, range as int),
{
    let dx: i128 = p.x as i128 - q.x as i128;
    let dy: i128 = p.y as i128 - q.y as i128;
    let rr: i128 = mul_wide(range, range);
    proof {
        assert(0 <= dx * dx <= 16_000_000_000_000_000_000_000_000_000_000 && 0 <= dy * dy
            <= 16_000_000_000_000_000_000_000_000_000_000) by (nonlinear_arith)
            requires
                -4_000_000_000_000_000 <= dx <= 4_000_000_000_000_000,
                -4_000_000_000_000_000 <= dy <= 4_000_000_000_000_000;
    }
    dx * dx + dy * dy < rr
}

/// Which side of the directed line from `p1` through `p2` the point `p3`
/// lies on: 1 when on the line or to its right, -1 when strictly to its
/// left.
pub fn side_of_line(p1: Vec2, p2: Vec2, p3: Vec2) -> (side: i8)
    requires
        -2 * crate::fxp::POS_MAX <= p1.x <= 2 * crate::fxp::POS_MAX,
        -2 * crate::fxp::POS_MAX <= p1.y <= 2 * crate::fxp::POS_MAX,
        -2 * crate::fxp::POS_MAX <= p2.x <= 2 * crate::fxp::POS_MAX,
        -2 * crate::fxp::POS_MAX <= p2.y <= 2 * crate::fxp::POS_MAX,
        -2 * crate::fxp::POS_MAX <= p3.x <= 2 * crate::fxp::POS_MAX,
        -2 * crate::fxp::POS_MAX <= p3.y <= 2 * crate::fxp::POS_MAX,
    ensures
        side == 1 || side == -1,
        side == 1 <==> spec_side_cross(p1, p2, p3) >= 0,
        side == -1 <==> spec_side_cross(p1, p2, p3) < 0,
{
    let ax: i128 = p3.x as i128 - p1.x as i128;
    let ay: i128 = p3.y as i128 - p1.y as i128;
    let bx: i128 = p2.x as i128 - p1.x as i128;
    let by: i128 = p2.y as i128 - p1.y as i128;
    proof {
        assert(-16_000_000_000_000_000_000_000_000_000_000 <= ax * by
            <= 16_000_000_000_000_000_000_000_000_000_000
            && -16_000_000_000_000_000_000_000_000_000_000 <= ay * bx
            <= 16_000_000_000_000_000_000_000_000_000_000) by (nonlinear_arith)
            requires
                -4_000_000_000_000_000 <= ax <= 4_000_000_000_000_000,
                -4_000_000_000_000_000 <= ay <= 4_000_000_000_000_000,
                -4_000_000_000_000_000 <= bx <= 4_000_000_000_000_000,
                -4_000_000_000_000_000 <= by <= 4_000_000_000_000_000;
    }
    let cross: i128 = ax * by - ay * bx;
    if cross >= 0 {
        1
    } else {
        -1
    }
}

/// A point on the ray from `p1` through `p2`, at or beyond `p2`, counts
/// as being on the line's right side.
pub proof fn lemma_side_on_ray(p1: Vec2, p2: Vec2, p3: Vec2, t: int)
    requires
        t >= 1,
        p3.x - p1.x == t * (p2.x - p1.x),
        p3.y - p1.y == t * (p2.y - p1.y),
    ensures
        spec_side_cross(p1, p2, p3) == 0,
{
    assert((t * (p2.x - p1.x)) * (p2.y - p1.y) - (t * (p2.y - p1.y)) * (p2.x - p1.x) == 0)
        by (nonlinear_arith);
}

/// Whether the perpendicular distance from `q` to the line through `p`
/// with direction `dir` is strictly less than `width`, compared on
/// squares: the squared cross product of `q - p` with `dir` is measured
/// against the squared width times the squared length of `dir`.
pub open spec fn spec_within_line_width(p: Vec2, dir: Vec2, q: Vec2, width: int) -> bool {
    let cross = (q.x - p.x) * dir.y - (q.y - p.y) * dir.x;
    cross * cross < (width * width) * (dir.x * dir.x + dir.y * dir.y)
}

/// Perpendicular-distance test against a directed line, with no division
/// and no special case for vertical directions. The direction is a unit
/// heading vector, with components scaled to `TRIG_ONE`, and the tested
/// point may lie at most twice the largest sight range away.
pub fn line_distance_within(p: Vec2, dir: Vec2, q: Vec2, width: i64) -> (r: bool)
    requires
        -2 * crate::fxp::RANGE_MAX <= q.x - p.x <= 2 * crate::fxp::RANGE_MAX,
        -2 * crate::fxp::RANGE_MAX <= q.y - p.y <= 2 * crate::fxp::RANGE_MAX,
        -crate::trig::TRIG_ONE <= dir.x <= crate::trig::TRIG_ONE,
        -crate::trig::TRIG_ONE <= dir.y <= crate::trig::TRIG_ONE,
        0 <= width <= crate::fxp::RANGE_MAX,
    ensures
        r == spec_within_line_width(p, dir, q, width as int),
{
    let dqx: i64 = q.x - p.x;
    let dqy: i64 = q.y - p.y;
    let m1: i128 = mul_wide(dqx, dir.y);
    let m2: i128 = mul_wide(dqy, dir.x);
    proof {
        assert(-2_000_000_000_000_000_000 <= m1 <= 2_000_000_000_000_000_000
            && -2_000_000_000_000_000_000 <= m2 <= 2_000_000_000_000_000_000) by (nonlinear_arith)
            requires
                m1 == dqx * dir.y,
                m2 == dqy * dir.x,
                -2_000_000_000_000 <= dqx <= 2_000_000_000_000,
                -2_000_000_000_000 <= dqy <= 2_000_000_000_000,
                -1_000_000 <= dir.x <= 1_000_000,
                -1_000_000 <= dir.y <= 1_000_000;
    }
    let cross: i128 = sub_wide(m1, m2);
    let lx: i128 = mul_wide(dir.x, dir.x);
    let ly: i128 = mul_wide(dir.y, dir.y);
    proof {
        assert(0 <= lx <= 1_000_000_000_000 && 0 <= ly <= 1_000_000_000_000) by (nonlinear_arith)
            requires
                lx == dir.x * dir.x,
                ly == dir.y * dir.y,
                -1_000_000 <= dir.x <= 1_000_000,
                -1_000_000 <= dir.y <= 1_000_000;
    }
    let len_sq: i128 = add_wide(lx, ly);
    let width_sq: i128 = mul_wide(width, width);
    proof {
        assert(0 <= width_sq <= 1_000_000_000_000_000_000_000_000) by (nonlinear_arith)
            requires
                width_sq == width * width,
                0 <= width <= 1_000_000_000_000;
        assert(0 <= cross * cross < i128::MAX && i128::MIN < width_sq * len_sq < i128::MAX)
            by (nonlinear_arith)
            requires
                -4_000_000_000_000_000_000 <= cross <= 4_000_000_000_000_000_000,
                0 <= width_sq <= 1_000_000_000_000_000_000_000_000,
                0 <= len_sq <= 2_000_000_000_000;
    }
    mul_wide_128(cross, cross) < mul_wide_128(width_sq, len_sq)
}

/// Widening sum of two products of machine integers.
fn add_wide(a: i128, b: i128) -> (r: i128)
    requires
        i128::MIN < a + b < i128::MAX,
    ensures
        r == a + b,
{
    a + b
}

/// Widening difference of two products of machine integers.
fn sub_wide(a: i128, b: i128) -> (r: i128)
    requires
        i128::MIN < a - b < i128::MAX,
    ensures
        r == a - b,
{
    a - b
}

/// Product of two `i128` values already proved to fit.
fn mul_wide_128(a: i128, b: i128) -> (r: i128)
    requires
        i128::MIN < a * b < i128::MAX,
    ensures
        r == a * b,
{
    a * b
}

} // verus!
