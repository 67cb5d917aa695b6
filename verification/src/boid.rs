//! One simulated agent: a stable identity, a position, and a velocity
//! held in polar form - a facing angle and a speed. Rotating the facing
//! angle is the turn, so steering can never change the speed: velocity
//! magnitude is preserved exactly, not merely within a tolerance.

use vstd::prelude::*;

use crate::angle::ANGLE_FULL;
use crate::angle::STRENGTH_ONE;
use crate::angle::angle_wf;
use crate::angle::norm_angle;
use crate::angle::scale_turn;
use crate::angle::shortest_diff;
use crate::angle::spec_norm_angle;
use crate::angle::spec_scale_turn;
use crate::angle::spec_shortest_diff;
use crate::fxp::POS_MAX;
use crate::fxp::SPEED_MAX;
use crate::fxp::div_trunc;
use crate::trig::HEAD_MAX;
use crate::trig::TRIG_ONE;
use crate::trig::cos_units;
use crate::trig::heading_units;
use crate::trig::sin_units;
use crate::trig::spec_cos;
use crate::trig::spec_heading;
use crate::trig::spec_sin;
use crate::vec2::Vec2;

verus! {

/// One flocking agent.
#[derive(Clone, Copy, PartialEq, Eq, Structural, Debug)]
pub struct Boid {
    /// Stable identifier, used only for self-exclusion in neighbour scans.
    pub id: u64,
    /// Position in the plane, in sub-units.
    pub position: Vec2,
    /// Facing direction, in microdegrees within [0, a full turn).
    pub heading: i64,
    /// Speed along the facing direction, in sub-units per tick.
    pub speed: i64,
}

impl Boid {
    /// A boid whose fields stay inside the ranges every operation
    /// preserves.
    pub open spec fn well_formed(self) -> bool {
        &&& angle_wf(self.heading as int)
        &&& 0 <= self.speed <= SPEED_MAX
        &&& -POS_MAX <= self.position.x <= POS_MAX
        &&& -POS_MAX <= self.position.y <= POS_MAX
    }

    /// Horizontal velocity component, in sub-units per tick.
    pub open spec fn spec_vel_x(self) -> int {
        div_trunc(self.speed * spec_cos(self.heading as int), TRIG_ONE as int)
    }

    /// Vertical velocity component, in sub-units per tick.
    pub open spec fn spec_vel_y(self) -> int {
        div_trunc(self.speed * spec_sin(self.heading as int), TRIG_ONE as int)
    }

    /// A new boid at the origin, at rest: facing along the first axis
    /// with zero speed.
    pub fn new(id: u64) -> (b: Boid)
        ensures
            b == (Boid { id, position: Vec2 { x: 0, y: 0 }, heading: 0, speed: 0 }),
            b.well_formed(),
    {
        Boid { id, position: Vec2 { x: 0, y: 0 }, heading: 0, speed: 0 }
    }

    /// A new boid at rest at a given position.
    pub fn with_position(id: u64, position: Vec2) -> (b: Boid)
        requires
            -POS_MAX <= position.x <= POS_MAX,
            -POS_MAX <= position.y <= POS_MAX,
        ensures
            b == (Boid { id, position, heading: 0, speed: 0 }),
            b.well_formed(),
    {
        Boid { id, position, heading: 0, speed: 0 }
    }

    /// A new boid at the origin with a given heading and speed.
    pub fn with_velocity(id: u64, heading: i64, speed: i64) -> (b: Boid)
        requires
            angle_wf(heading as int),
            0 <= speed <= SPEED_MAX,
        ensures
            b == (Boid { id, position: Vec2 { x: 0, y: 0 }, heading, speed }),
            b.well_formed(),
    {
        Boid { id, position: Vec2 { x: 0, y: 0 }, heading, speed }
    }

    /// A new boid with a given heading, speed and position.
    pub fn with_velocity_and_position(id: u64, heading: i64, speed: i64, position: Vec2) -> (b:
        Boid)
        requires
            angle_wf(heading as int),
            0 <= speed <= SPEED_MAX,
            -POS_MAX <= position.x <= POS_MAX,
            -POS_MAX <= position.y <= POS_MAX,
        ensures
            b == (Boid { id, position, heading, speed }),
            b.well_formed(),
    {
        Boid { id, position, heading, speed }
    }

    /// Whether the fields lie inside the ranges the library preserves.
    pub fn is_well_formed(&self) -> (r: bool)
        ensures
            r == self.well_formed(),
    {
        0 <= self.heading && self.heading < ANGLE_FULL && 0 <= self.speed && self.speed
            <= SPEED_MAX && -POS_MAX <= self.position.x && self.position.x <= POS_MAX && -POS_MAX
            <= self.position.y && self.position.y <= POS_MAX
    }

    /// The unit vector of the facing direction, scaled to `TRIG_ONE`.
    pub fn dir_vec(&self) -> (d: Vec2)
        requires
            angle_wf(self.heading as int),
        ensures
            d.x == spec_cos(self.heading as int),
            d.y == spec_sin(self.heading as int),
            -TRIG_ONE <= d.x <= TRIG_ONE,
            -TRIG_ONE <= d.y <= TRIG_ONE,
    {
        Vec2 { x: cos_units(self.heading), y: sin_units(self.heading) }
    }

    /// The velocity vector: the facing direction scaled by the speed.
    pub fn velocity(&self) -> (v: Vec2)
        requires
            angle_wf(self.heading as int),
            0 <= self.speed <= SPEED_MAX,
        ensures
            v.x == self.spec_vel_x(),
            v.y == self.spec_vel_y(),
            -self.speed <= v.x <= self.speed,
            -self.speed <= v.y <= self.speed,
    {
        let c: i64 = cos_units(self.heading);
        let s: i64 = sin_units(self.heading);
        proof {
            assert(-(SPEED_MAX as int) * TRIG_ONE <= self.speed * c <= (SPEED_MAX as int)
                * TRIG_ONE && -(self.speed * TRIG_ONE) <= self.speed * c <= self.speed * TRIG_ONE)
                by (nonlinear_arith)
                requires
                    0 <= self.speed <= SPEED_MAX,
                    -TRIG_ONE <= c <= TRIG_ONE;
            assert(-(SPEED_MAX as int) * TRIG_ONE <= self.speed * s <= (SPEED_MAX as int)
                * TRIG_ONE && -(self.speed * TRIG_ONE) <= self.speed * s <= self.speed * TRIG_ONE)
                by (nonlinear_arith)
                requires
                    0 <= self.speed <= SPEED_MAX,
                    -TRIG_ONE <= s <= TRIG_ONE;
        }
        let px: i64 = self.speed * c;
        let py: i64 = self.speed * s;
        let vx: i64 = if px >= 0 {
            px / TRIG_ONE
        } else {
            -((-px) / TRIG_ONE)
        };
        let vy: i64 = if py >= 0 {
            py / TRIG_ONE
        } else {
            -((-py) / TRIG_ONE)
        };
        proof {
            crate::fxp::lemma_div_trunc_bound(px as int, TRIG_ONE as int, self.speed as int);
            crate::fxp::lemma_div_trunc_bound(py as int, TRIG_ONE as int, self.speed as int);
            assert(TRIG_ONE * self.speed == self.speed * TRIG_ONE) by (nonlinear_arith);
        }
        Vec2 { x: vx, y: vy }
    }

    /// Turns the boid in place by a signed angle; position, speed and
    /// identity are untouched.
    pub fn rotate(&mut self, delta: i64)
        requires
            angle_wf(old(self).heading as int),
            -ANGLE_FULL <= delta <= ANGLE_FULL,
        ensures
            *final(self) == (Boid {
                heading: spec_norm_angle(old(self).heading + delta) as i64,
                ..*old(self)
            }),
            angle_wf(final(self).heading as int),
    {
        self.heading = norm_angle(self.heading + delta);
    }
}

/// The boid after the shared steering primitive has turned it toward the
/// target heading `phi` with strength `s`.
pub open spec fn spec_steer(b: Boid, phi: int, s: int) -> Boid {
    Boid {
        heading: spec_norm_angle(
            b.heading + spec_scale_turn(spec_shortest_diff(phi, b.heading as int), s),
        ) as i64,
        ..b
    }
}

impl Boid {
    /// The rotation-limited steering primitive all behaviours share:
    /// turns the facing by the shortest angular way toward the target
    /// heading, scaled by the strength fraction. The turn stops at the
    /// target and never overshoots it, and the speed is untouched.
    pub fn steer_to_heading(&mut self, phi: i64, strength: i64)
        requires
            angle_wf(old(self).heading as int),
            angle_wf(phi as int),
            0 <= strength <= STRENGTH_ONE,
        ensures
            *final(self) == spec_steer(*old(self), phi as int, strength as int),
            final(self).speed == old(self).speed,
            final(self).position == old(self).position,
            final(self).id == old(self).id,
            angle_wf(final(self).heading as int),
            spec_shortest_diff(phi as int, final(self).heading as int) == spec_shortest_diff(
                phi as int,
                old(self).heading as int,
            ) - spec_scale_turn(
                spec_shortest_diff(phi as int, old(self).heading as int),
                strength as int,
            ),
            spec_shortest_diff(phi as int, old(self).heading as int) >= 0 ==> 0
                <= spec_shortest_diff(phi as int, final(self).heading as int)
                <= spec_shortest_diff(phi as int, old(self).heading as int),
            spec_shortest_diff(phi as int, old(self).heading as int) <= 0 ==> spec_shortest_diff(
                phi as int,
                old(self).heading as int,
            ) <= spec_shortest_diff(phi as int, final(self).heading as int) <= 0,
            strength == STRENGTH_ONE ==> spec_shortest_diff(
                phi as int,
                final(self).heading as int,
            ) == 0,
    {
        let d: i64 = shortest_diff(phi, self.heading);
        let t: i64 = scale_turn(d, strength);
        self.rotate(t);
    }
}

/// The boid after steering toward a target point. A target coinciding
/// with the boid's own position has no defined direction and is a no-op.
pub open spec fn spec_steer_towards_point(b: Boid, point: Vec2, s: int) -> Boid {
    if point == b.position {
        b
    } else {
        spec_steer(b, spec_heading(point.x - b.position.x, point.y - b.position.y), s)
    }
}

/// The boid after steering toward the direction of a target velocity. A
/// zero target velocity has no direction and is a no-op.
pub open spec fn spec_steer_towards_velocity(b: Boid, v: Vec2, s: int) -> Boid {
    if v == (Vec2 { x: 0, y: 0 }) {
        b
    } else {
        spec_steer(b, spec_heading(v.x as int, v.y as int), s)
    }
}

impl Boid {
    /// Turns toward a target point by the strength fraction; a strength
    /// of `STRENGTH_ONE` turns the boid to face the point in one call.
    /// Speed, position and identity are untouched.
    pub fn steer_towards_point(&mut self, point: Vec2, strength: i64)
        requires
            old(self).well_formed(),
            -2 * POS_MAX <= point.x <= 2 * POS_MAX,
            -2 * POS_MAX <= point.y <= 2 * POS_MAX,
            0 <= strength <= STRENGTH_ONE,
        ensures
            *final(self) == spec_steer_towards_point(*old(self), point, strength as int),
            final(self).speed == old(self).speed,
            final(self).position == old(self).position,
            final(self).id == old(self).id,
            final(self).well_formed(),
    {
        let dx: i64 = point.x - self.position.x;
        let dy: i64 = point.y - self.position.y;
        if dx == 0 && dy == 0 {
            return ;
        }
        let phi: i64 = heading_units(dx, dy);
        self.steer_to_heading(phi, strength);
    }

    /// Turns toward the direction of a target velocity by the strength
    /// fraction. Speed, position and identity are untouched.
    pub fn steer_towards_velocity(&mut self, v: Vec2, strength: i64)
        requires
            old(self).well_formed(),
            -HEAD_MAX <= v.x <= HEAD_MAX,
            -HEAD_MAX <= v.y <= HEAD_MAX,
            0 <= strength <= STRENGTH_ONE,
        ensures
            *final(self) == spec_steer_towards_velocity(*old(self), v, strength as int),
            final(self).speed == old(self).speed,
            final(self).position == old(self).position,
            final(self).id == old(self).id,
            final(self).well_formed(),
    {
        if v.x == 0 && v.y == 0 {
            return ;
        }
        let phi: i64 = heading_units(v.x, v.y);
        self.steer_to_heading(phi, strength);
    }
}

} // verus!
