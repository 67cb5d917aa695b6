//! A verified core for a two-dimensional flocking simulation.
//!
//! The library models boids - simple agents with a position, a facing
//! direction and a speed - and the per-tick rules that move them: a
//! wraparound boundary handler, straight-line movement, and three steering
//! behaviours (cohesion, alignment, separation) that rotate a boid's
//! heading toward or away from what its neighbours are doing.
//!
//! All state is kept in fixed-point integers: lengths in millionths of a
//! world unit, angles in millionths of a degree. Steering never changes a
//! boid's speed, only its heading, so velocity magnitude is preserved
//! exactly.

pub mod angle;
pub mod boid;
pub mod flock;
pub mod fxp;
pub mod random;
pub mod settings;
pub mod sim;
pub mod trig;
pub mod vec2;
