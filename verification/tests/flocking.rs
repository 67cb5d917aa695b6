use boids::angle::shortest_diff;
use boids::boid::Boid;
use boids::flock::Flock;
use boids::settings::SimulationSettings;
use boids::sim::boid_follow_others;
use boids::sim::boid_stick_together;
use boids::sim::boid_window_border_wraparound;
use boids::sim::move_boids;
use boids::sim::neighbors;
use boids::sim::tick;
use boids::vec2::Vec2;

fn flock_of(boids: Vec<Boid>) -> Flock {
    let next: u64 = boids.len() as u64;
    Flock { boids, next_id: next }
}

fn movement_only() -> SimulationSettings {
    let mut s = SimulationSettings::default();
    s.stick_together = false;
    s.follow_others = false;
    s.avoid_boids = false;
    s
}

#[test]
fn neighbors_never_contain_the_subject() {
    let f = flock_of(vec![
        Boid::with_position(0, Vec2 { x: 0, y: 0 }),
        Boid::with_position(1, Vec2 { x: 1_000_000, y: 0 }),
        Boid::with_position(2, Vec2 { x: 0, y: 2_000_000 }),
    ]);
    for i in 0..3usize {
        let res = neighbors(&f, i, 1_000_000_000);
        assert!(!res.contains(&i));
        assert_eq!(res.len(), 2);
    }
}

#[test]
fn neighbors_apply_a_strict_distance_bound() {
    let f = flock_of(vec![
        Boid::with_position(0, Vec2 { x: 0, y: 0 }),
        Boid::with_position(1, Vec2 { x: 100_000_000, y: 0 }),
        Boid::with_position(2, Vec2 { x: 99_999_999, y: 0 }),
        Boid::with_position(3, Vec2 { x: 0, y: 500_000_000 }),
    ]);
    let res = neighbors(&f, 0, 100_000_000);
    assert_eq!(res, vec![2usize]);
}

#[test]
fn no_neighbor_makes_alignment_and_cohesion_no_ops() {
    let a = Boid::with_velocity_and_position(0, 10_000_000, 2_000_000, Vec2 { x: 0, y: 0 });
    let b = Boid::with_velocity_and_position(
        1,
        200_000_000,
        2_000_000,
        Vec2 { x: 500_000_000, y: 0 },
    );
    let mut f = flock_of(vec![a, b]);
    let s = SimulationSettings::default();
    boid_stick_together(&mut f, &s);
    boid_follow_others(&mut f, &s);
    assert_eq!(f.boids[0], a);
    assert_eq!(f.boids[1], b);
}

#[test]
fn steering_preserves_speed_exactly() {
    let mut b = Boid::with_velocity_and_position(
        7,
        123_456_789,
        1_987_654,
        Vec2 { x: 5_000_000, y: -3_000_000 },
    );
    b.steer_towards_point(Vec2 { x: -40_000_000, y: 90_000_000 }, 250);
    assert_eq!(b.speed, 1_987_654);
    b.steer_towards_velocity(Vec2 { x: -1_000_000, y: -2_000_000 }, 1000);
    assert_eq!(b.speed, 1_987_654);
    b.rotate(-77_000_000);
    assert_eq!(b.speed, 1_987_654);
}

#[test]
fn steering_never_moves_the_boid() {
    let mut b = Boid::with_velocity_and_position(
        7,
        45_000_000,
        2_000_000,
        Vec2 { x: 11, y: -22 },
    );
    b.steer_towards_point(Vec2 { x: 1_000_000, y: 1_000_000 }, 500);
    assert_eq!(b.position, Vec2 { x: 11, y: -22 });
}

#[test]
fn small_ccw_target_turns_counter_clockwise() {
    let mut b = Boid::with_velocity(0, 0, 2_000_000);
    b.steer_towards_point(Vec2 { x: 1_000_000, y: 1_000 }, 1000);
    assert!(0 < b.heading && b.heading < 90_000_000);
}

#[test]
fn small_cw_target_turns_clockwise() {
    let mut b = Boid::with_velocity(0, 0, 2_000_000);
    b.steer_towards_point(Vec2 { x: 1_000_000, y: -1_000 }, 1000);
    assert!(b.heading > 270_000_000);
}

#[test]
fn target_exactly_behind_resolves_clockwise_in_both_entry_points() {
    let mut via_point = Boid::with_velocity(0, 0, 2_000_000);
    via_point.steer_towards_point(Vec2 { x: -1_000_000, y: 0 }, 100);
    let mut via_velocity = Boid::with_velocity(1, 0, 2_000_000);
    via_velocity.steer_towards_velocity(Vec2 { x: -1_000_000, y: 0 }, 100);
    assert_eq!(via_point.heading, 342_000_000);
    assert_eq!(via_velocity.heading, 342_000_000);
}

#[test]
fn full_strength_turns_exactly_onto_the_target() {
    let mut b = Boid::with_velocity(0, 300_000_000, 2_000_000);
    b.steer_towards_velocity(Vec2 { x: 0, y: 5_000_000 }, 1000);
    assert_eq!(b.heading, 90_000_000);
    assert_eq!(shortest_diff(90_000_000, b.heading), 0);
}

#[test]
fn wraparound_lands_on_the_mirrored_offset() {
    let s = SimulationSettings::default();
    let mut f = flock_of(vec![
        Boid::with_position(0, Vec2 { x: 700_000_000, y: 0 }),
    ]);
    boid_window_border_wraparound(&mut f, &s);
    assert_eq!(f.boids[0].position.x, -647_500_000);
    assert_eq!(f.boids[0].position.y, 0);
    boid_window_border_wraparound(&mut f, &s);
    assert_eq!(f.boids[0].position.x, -647_500_000);
}

#[test]
fn wraparound_is_symmetric_on_every_edge() {
    let s = SimulationSettings::default();
    let mut f = flock_of(vec![
        Boid::with_position(0, Vec2 { x: -700_000_000, y: 0 }),
        Boid::with_position(1, Vec2 { x: 0, y: 500_000_000 }),
        Boid::with_position(2, Vec2 { x: 0, y: -500_000_000 }),
    ]);
    boid_window_border_wraparound(&mut f, &s);
    assert_eq!(f.boids[0].position.x, 647_500_000);
    assert_eq!(f.boids[1].position.y, -370_000_000);
    assert_eq!(f.boids[2].position.y, 370_000_000);
}

#[test]
fn full_traversal_returns_to_the_crossing_point() {
    let s = movement_only();
    let mut f = flock_of(vec![
        Boid::with_velocity_and_position(0, 0, 1_000_000, Vec2 { x: 647_000_000, y: 0 }),
    ]);
    let mut wraps: Vec<i64> = Vec::new();
    let mut steps: i64 = 0;
    while wraps.len() < 2 && steps < 3000 {
        let before: i64 = f.boids[0].position.x;
        tick(&mut f, &s);
        let after: i64 = f.boids[0].position.x;
        if after < before {
            wraps.push(after);
        }
        steps += 1;
    }
    assert_eq!(wraps.len(), 2);
    assert_eq!(wraps[0] - 1_000_000, -647_500_000);
    assert_eq!(wraps[0], wraps[1]);
}

#[test]
fn movement_adds_the_velocity_exactly() {
    let s = movement_only();
    let a = Boid::with_velocity_and_position(
        0,
        boids::trig::heading_units(1_000_000, 400_000),
        1_077_033,
        Vec2 { x: -200_000_000, y: 0 },
    );
    let b = Boid::with_velocity_and_position(
        1,
        boids::trig::heading_units(-800_000, -400_000),
        894_427,
        Vec2 { x: 200_000_000, y: -100_000_000 },
    );
    let va = a.velocity();
    let vb = b.velocity();
    let mut f = flock_of(vec![a, b]);
    tick(&mut f, &s);
    assert_eq!(f.boids[0].position, Vec2 { x: -200_000_000 + va.x, y: va.y });
    assert_eq!(
        f.boids[1].position,
        Vec2 { x: 200_000_000 + vb.x, y: -100_000_000 + vb.y }
    );
    assert_eq!(f.boids[0].heading, a.heading);
    assert_eq!(f.boids[0].speed, a.speed);
}

#[test]
fn paused_simulation_mutates_nothing() {
    let mut s = SimulationSettings::default();
    s.run = false;
    let a = Boid::with_velocity_and_position(0, 10_000_000, 2_000_000, Vec2 { x: 5, y: 6 });
    let b = Boid::with_velocity_and_position(1, 20_000_000, 2_000_000, Vec2 { x: 7, y: 8 });
    let mut f = flock_of(vec![a, b]);
    tick(&mut f, &s);
    assert_eq!(f.boids[0], a);
    assert_eq!(f.boids[1], b);
}

#[test]
fn alignment_turns_each_heading_toward_the_other_but_not_past() {
    let mut s = SimulationSettings::default();
    s.stick_together = false;
    s.avoid_boids = false;
    s.follow_others = true;
    s.follow_others_strength = 50;
    let mut f = flock_of(vec![
        Boid::with_velocity_and_position(0, 0, 2_000_000, Vec2 { x: 0, y: 0 }),
        Boid::with_velocity_and_position(1, 40_000_000, 2_000_000, Vec2 { x: 10_000_000, y: 0 }),
    ]);
    tick(&mut f, &s);
    let h0: i64 = f.boids[0].heading;
    let h1: i64 = f.boids[1].heading;
    assert!(0 < h0 && h0 < 40_000_000);
    assert!(h0 < h1 && h1 < 40_000_000);
    let gap: i64 = shortest_diff(h1, h0);
    assert!(0 < gap && gap < 40_000_000);
}

#[test]
fn separation_turns_away_from_a_neighbor_on_the_right() {
    let mut s = SimulationSettings::default();
    s.stick_together = false;
    s.follow_others = false;
    s.run = true;
    let mut f = flock_of(vec![
        Boid::with_velocity_and_position(0, 0, 2_000_000, Vec2 { x: 0, y: 0 }),
        Boid::with_velocity_and_position(1, 0, 2_000_000, Vec2 { x: 52_000_000, y: -10_000_000 }),
    ]);
    boids::sim::boid_avoid_others(&mut f, &s);
    assert_eq!(f.boids[0].heading, s.avoid_boid_strength);
}

#[test]
fn separation_compounds_one_turn_per_qualifying_neighbor() {
    let mut s = SimulationSettings::default();
    s.stick_together = false;
    s.follow_others = false;
    let mut f = flock_of(vec![
        Boid::with_velocity_and_position(0, 0, 2_000_000, Vec2 { x: 0, y: 0 }),
        Boid::with_velocity_and_position(1, 0, 2_000_000, Vec2 { x: 52_000_000, y: -10_000_000 }),
        Boid::with_velocity_and_position(2, 0, 2_000_000, Vec2 { x: 80_000_000, y: -5_000_000 }),
    ]);
    boids::sim::boid_avoid_others(&mut f, &s);
    assert_eq!(f.boids[0].heading, 2 * s.avoid_boid_strength);
}

#[test]
fn cohesion_turns_toward_the_average_position() {
    let mut s = SimulationSettings::default();
    s.follow_others = false;
    s.avoid_boids = false;
    s.stick_together = true;
    s.stick_together_strength = 1000;
    let mut f = flock_of(vec![
        Boid::with_velocity_and_position(0, 0, 2_000_000, Vec2 { x: 0, y: 0 }),
        Boid::with_velocity_and_position(1, 0, 2_000_000, Vec2 { x: 0, y: 50_000_000 }),
    ]);
    boid_stick_together(&mut f, &s);
    assert_eq!(f.boids[0].heading, 90_000_000);
}
