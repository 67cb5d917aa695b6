use boids::angle::norm_angle;
use boids::angle::shortest_diff;
use boids::boid::Boid;
use boids::flock::Flock;
use boids::flock::SPAWN_SPEED_MAX;
use boids::flock::SPAWN_SPEED_MIN;
use boids::settings::SimulationSettings;
use boids::trig::cos_units;
use boids::trig::heading_units;
use boids::trig::sin_units;
use boids::vec2::Vec2;
use boids::vec2::boid_is_nearby;
use boids::vec2::line_distance_within;
use boids::vec2::side_of_line;

#[test]
fn sine_and_cosine_are_exact_at_quarter_turns() {
    assert_eq!(sin_units(0), 0);
    assert_eq!(sin_units(90_000_000), 1_000_000);
    assert_eq!(sin_units(180_000_000), 0);
    assert_eq!(sin_units(270_000_000), -1_000_000);
    assert_eq!(cos_units(0), 1_000_000);
    assert_eq!(cos_units(90_000_000), 0);
    assert_eq!(cos_units(180_000_000), -1_000_000);
    assert_eq!(cos_units(270_000_000), 0);
}

#[test]
fn sine_is_close_to_the_real_sine_between_anchors() {
    let s30: i64 = sin_units(30_000_000);
    let s45: i64 = sin_units(45_000_000);
    let s60: i64 = sin_units(60_000_000);
    assert!((s30 - 500_000).abs() < 3_000);
    assert!((s45 - 707_107).abs() < 3_000);
    assert!((s60 - 866_025).abs() < 3_000);
}

#[test]
fn headings_are_exact_on_axes_and_diagonal() {
    assert_eq!(heading_units(5, 0), 0);
    assert_eq!(heading_units(0, 5), 90_000_000);
    assert_eq!(heading_units(-5, 0), 180_000_000);
    assert_eq!(heading_units(0, -5), 270_000_000);
    assert_eq!(heading_units(7, 7), 45_000_000);
    assert_eq!(heading_units(-3, -3), 225_000_000);
}

#[test]
fn heading_is_close_to_the_real_arctangent() {
    let h: i64 = heading_units(1_000_000, 400_000);
    assert!((h - 21_801_409).abs() < 300_000);
}

#[test]
fn normalization_and_shortest_difference() {
    assert_eq!(norm_angle(-10_000_000), 350_000_000);
    assert_eq!(norm_angle(370_000_000), 10_000_000);
    assert_eq!(shortest_diff(10_000_000, 350_000_000), 20_000_000);
    assert_eq!(shortest_diff(350_000_000, 10_000_000), -20_000_000);
    assert_eq!(shortest_diff(180_000_000, 0), -180_000_000);
    assert_eq!(shortest_diff(0, 0), 0);
}

#[test]
fn side_of_line_is_plus_one_on_the_right_and_on_the_line() {
    let p1 = Vec2 { x: 0, y: 0 };
    let p2 = Vec2 { x: 0, y: 1_000_000 };
    assert_eq!(side_of_line(p1, p2, Vec2 { x: 5, y: 500 }), 1);
    assert_eq!(side_of_line(p1, p2, Vec2 { x: -5, y: 500 }), -1);
    let a = Vec2 { x: 1, y: 1 };
    let b = Vec2 { x: 3, y: 3 };
    let beyond = Vec2 { x: 7, y: 7 };
    assert_eq!(side_of_line(a, b, beyond), 1);
}

#[test]
fn nearby_test_is_strict() {
    let p = Vec2 { x: 0, y: 0 };
    assert!(boid_is_nearby(p, Vec2 { x: 3, y: 4 }, 6));
    assert!(!boid_is_nearby(p, Vec2 { x: 3, y: 4 }, 5));
}

#[test]
fn line_distance_test_measures_perpendicular_offset() {
    let p = Vec2 { x: 0, y: 0 };
    let east = Vec2 { x: 1_000_000, y: 0 };
    assert!(line_distance_within(p, east, Vec2 { x: 50_000_000, y: 10_000_000 }, 15_000_000));
    assert!(!line_distance_within(p, east, Vec2 { x: 50_000_000, y: 20_000_000 }, 15_000_000));
}

#[test]
fn spawned_boids_respect_every_advertised_range() {
    let s = SimulationSettings::default();
    let mut f = Flock::new();
    f.spawn_boids(40, &s);
    assert_eq!(f.boids.len(), 40);
    for b in f.boids.iter() {
        assert!(SPAWN_SPEED_MIN <= b.speed && b.speed < SPAWN_SPEED_MAX);
        assert!(0 <= b.heading && b.heading < 360_000_000);
        assert!(-640_000_000 <= b.position.x && b.position.x <= 640_000_000);
        assert!(-360_000_000 <= b.position.y && b.position.y <= 360_000_000);
    }
    for i in 0..40usize {
        for j in 0..i {
            assert_ne!(f.boids[i].id, f.boids[j].id);
        }
    }
    assert!(f.is_well_formed());
}

#[test]
fn despawn_keeps_the_leading_boids() {
    let mut f = Flock::new();
    let s = SimulationSettings::default();
    f.spawn_boids(10, &s);
    let kept: Vec<u64> = f.boids.iter().take(4).map(|b| b.id).collect();
    f.despawn_to(4);
    assert_eq!(f.boids.len(), 4);
    let now: Vec<u64> = f.boids.iter().map(|b| b.id).collect();
    assert_eq!(kept, now);
}

#[test]
fn population_changes_follow_the_desired_count() {
    let mut s = SimulationSettings::default();
    s.num_boids = 6;
    let mut f = Flock::new();
    f.handle_num_boids_changes(&s);
    assert_eq!(f.boids.len(), 6);
    let keep: Vec<u64> = f.boids.iter().map(|b| b.id).collect();
    s.num_boids = 9;
    f.handle_num_boids_changes(&s);
    assert_eq!(f.boids.len(), 9);
    let front: Vec<u64> = f.boids.iter().take(6).map(|b| b.id).collect();
    assert_eq!(keep, front);
    s.num_boids = 2;
    f.handle_num_boids_changes(&s);
    assert_eq!(f.boids.len(), 2);
    assert!(f.is_well_formed());
}

#[test]
fn default_settings_match_the_control_panel() {
    let s = SimulationSettings::default();
    assert!(s.run);
    assert_eq!(s.neighbor_range, 100_000_000);
    assert_eq!(s.avoid_range, 200_000_000);
    assert!(s.avoid_boids && s.stick_together && s.follow_others);
    assert_eq!(s.stick_together_strength, 10);
    assert_eq!(s.follow_others_strength, 50);
    assert_eq!(s.num_boids, 100);
    assert!(s.is_well_formed());
}

#[test]
fn boid_constructors_set_what_they_promise() {
    let b = Boid::new(3);
    assert_eq!(b.id, 3);
    assert_eq!(b.position, Vec2 { x: 0, y: 0 });
    assert_eq!(b.speed, 0);
    let c = Boid::with_velocity_and_position(
        4,
        45_000_000,
        2_000_000,
        Vec2 { x: 9, y: -9 },
    );
    assert_eq!(c.heading, 45_000_000);
    assert_eq!(c.speed, 2_000_000);
    assert_eq!(c.position, Vec2 { x: 9, y: -9 });
    assert!(c.is_well_formed());
    let v = c.velocity();
    assert!((v.x - 1_414_213).abs() < 3_000);
    assert!((v.y - 1_414_213).abs() < 3_000);
}

#[test]
fn empty_flock_ticks_without_complaint() {
    let s = SimulationSettings::default();
    let mut f = Flock::new();
    boids::sim::tick(&mut f, &s);
    assert_eq!(f.boids.len(), 0);
    assert!(f.is_well_formed());
}

#[test]
fn zero_range_sees_no_neighbors() {
    let f = Flock {
        boids: vec![
            Boid::with_position(0, Vec2 { x: 0, y: 0 }),
            Boid::with_position(1, Vec2 { x: 0, y: 0 }),
        ],
        next_id: 2,
    };
    let res = boids::sim::neighbors(&f, 0, 0);
    assert!(res.is_empty());
}
