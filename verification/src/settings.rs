//! The externally owned, read-only parameter set the simulation reads
//! each tick: ranges, behaviour toggles, strengths, the run flag, and
//! the simulation bounds.

use vstd::prelude::*;

use crate::angle::ANGLE_HALF;
use crate::angle::STRENGTH_ONE;
use crate::fxp::RANGE_MAX;

verus! {

/// Largest half-width or half-height of the simulation bounds.
pub const BOUND_MAX: i64 = 500_000_000_000;

/// Largest visual half-extent of a boid.
pub const EXTENT_MAX: i64 = 1_000_000_000_000;

/// Read-only simulation parameters. Lengths are in sub-units, steering
/// strengths in thousandths, the separation strength in microdegrees
/// per qualifying neighbour.
pub struct SimulationSettings {
    /// Global run flag; when off, no pass mutates any boid.
    pub run: bool,
    /// Radius within which another boid counts as a neighbour for
    /// alignment and cohesion.
    pub neighbor_range: i64,
    /// Radius within which another boid can trigger separation.
    pub avoid_range: i64,
    /// Whether the separation behaviour runs.
    pub avoid_boids: bool,
    /// Turn, in microdegrees, applied away from each qualifying
    /// neighbour during separation.
    pub avoid_boid_strength: i64,
    /// Whether the cohesion behaviour runs.
    pub stick_together: bool,
    /// Strength fraction of the turn toward the neighbours' average
    /// position, in thousandths.
    pub stick_together_strength: i64,
    /// Whether the alignment behaviour runs.
    pub follow_others: bool,
    /// Strength fraction of the turn toward the neighbours' average
    /// velocity, in thousandths.
    pub follow_others_strength: i64,
    /// Number of boids the simulation should hold.
    pub num_boids: u16,
    /// Width of the simulation bounds, centred on the origin.
    pub bound_width: i64,
    /// Height of the simulation bounds, centred on the origin.
    pub bound_height: i64,
    /// Half of a boid's visual extent along the first axis.
    pub half_extent_x: i64,
    /// Half of a boid's visual extent along the second axis.
    pub half_extent_y: i64,
    /// Full visual width of a boid, used by separation's line test.
    pub boid_width: i64,
}

impl SimulationSettings {
    /// Parameter values inside the ranges the simulation's arithmetic
    /// is proved for.
    pub open spec fn well_formed(self) -> bool {
        &&& 0 <= self.neighbor_range <= RANGE_MAX
        &&& 0 <= self.avoid_range <= RANGE_MAX
        &&& 0 <= self.avoid_boid_strength <= ANGLE_HALF
        &&& 0 <= self.stick_together_strength <= STRENGTH_ONE
        &&& 0 <= self.follow_others_strength <= STRENGTH_ONE
        &&& 0 <= self.bound_width <= 2 * BOUND_MAX
        &&& 0 <= self.bound_height <= 2 * BOUND_MAX
        &&& 0 <= self.half_extent_x <= EXTENT_MAX
        &&& 0 <= self.half_extent_y <= EXTENT_MAX
        &&& 0 <= self.boid_width <= RANGE_MAX
    }

    /// Whether the parameter values lie inside the proved ranges.
    pub fn is_well_formed(&self) -> (r: bool)
        ensures
            r == self.well_formed(),
    {
        0 <= self.neighbor_range && self.neighbor_range <= RANGE_MAX && 0 <= self.avoid_range
            && self.avoid_range <= RANGE_MAX && 0 <= self.avoid_boid_strength
            && self.avoid_boid_strength <= ANGLE_HALF && 0 <= self.stick_together_strength
            && self.stick_together_strength <= STRENGTH_ONE && 0 <= self.follow_others_strength
            && self.follow_others_strength <= STRENGTH_ONE && 0 <= self.bound_width
            && self.bound_width <= 2 * BOUND_MAX && 0 <= self.bound_height && self.bound_height
            <= 2 * BOUND_MAX && 0 <= self.half_extent_x && self.half_extent_x <= EXTENT_MAX && 0
            <= self.half_extent_y && self.half_extent_y <= EXTENT_MAX && 0 <= self.boid_width
            && self.boid_width <= RANGE_MAX
    }
}

impl Default for SimulationSettings {
    /// The values the control panel starts from: all behaviours on, a
    /// sight range of one hundred world units, an avoidance radius of
    /// twice that, and a window of 1280 by 720 world units around boids
    /// fifteen wide and twenty tall.
    fn default() -> (s: SimulationSettings)
        ensures
            s.run == true,
            s.neighbor_range == 100_000_000,
            s.avoid_range == 200_000_000,
            s.avoid_boids == true,
            s.avoid_boid_strength == 1_145_915,
            s.stick_together == true,
            s.stick_together_strength == 10,
            s.follow_others == true,
            s.follow_others_strength == 50,
            s.num_boids == 100,
            s.bound_width == 1_280_000_000,
            s.bound_height == 720_000_000,
            s.half_extent_x == 7_500_000,
            s.half_extent_y == 10_000_000,
            s.boid_width == 15_000_000,
            s.well_formed(),
    {
        SimulationSettings {
            run: true,
            neighbor_range: 100_000_000,
            avoid_range: 200_000_000,
            avoid_boids: true,
            avoid_boid_strength: 1_145_915,
            stick_together: true,
            stick_together_strength: 10,
            follow_others: true,
            follow_others_strength: 50,
            num_boids: 100,
            bound_width: 1_280_000_000,
            bound_height: 720_000_000,
            half_extent_x: 7_500_000,
            half_extent_y: 10_000_000,
            boid_width: 15_000_000,
        }
    }
}

} // verus!
