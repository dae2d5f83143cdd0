use fleet::ballistics::{
    get_angular_target_size, get_bullet_speed, get_bullet_time, lead, lead_from_self, project,
    solve, time_to_encounter, Shot, SolverConfig,
};
use fleet::command::fire_gate;
use fleet::sensor::SensorSnapshot;
use fleet::vector::Vector2;

const ONE: i64 = 1_000_000;
const TAU: i64 = 6_283_185;

fn v(x: i64, y: i64) -> Vector2 {
    Vector2::new(x, y)
}

/// A fighter at rest at the origin, nose along the first axis.
fn sensors() -> SensorSnapshot {
    SensorSnapshot {
        position: Vector2::zero(),
        velocity: Vector2::zero(),
        heading: 0,
        heading_direction: v(ONE, 0),
        angular_velocity: 0,
        max_forward_acceleration: 60 * ONE,
        max_backward_acceleration: 30 * ONE,
        max_lateral_acceleration: 30 * ONE,
        max_angular_acceleration: TAU,
        radar_heading: 0,
        radar_width: 0,
        gun_reload_ticks: 0,
        missile_reload_ticks: 0,
        contact: None,
    }
}

fn moving(velocity: Vector2) -> SensorSnapshot {
    let mut now = sensors();
    now.velocity = velocity;
    now
}

#[test]
fn solver_configurations() {
    assert_eq!(SolverConfig::fixed_passes(6), SolverConfig { max_iterations: 6, tolerance: 0 });
    assert_eq!(
        SolverConfig::within_tolerance(10, 500_000),
        SolverConfig { max_iterations: 10, tolerance: 500_000 }
    );
    assert_eq!(SolverConfig::standard(), SolverConfig { max_iterations: 64, tolerance: ONE });
}

#[test]
fn angular_target_size_is_size_over_distance() {
    let now = sensors();
    assert_eq!(get_angular_target_size(25 * ONE, v(1_000 * ONE, 0), &now), 25_000);
    assert_eq!(get_angular_target_size(25 * ONE, v(3_000 * ONE, 4_000 * ONE), &now), 5_000);
    let mut off_centre = sensors();
    off_centre.position = v(500 * ONE, 0);
    assert_eq!(get_angular_target_size(25 * ONE, v(1_000 * ONE, 0), &off_centre), 50_000);
}

#[test]
fn angular_target_size_at_the_ships_own_position_sticks_at_the_bound() {
    assert_eq!(get_angular_target_size(25 * ONE, v(0, 0), &sensors()), i64::MAX);
}

#[test]
fn bullet_time_is_distance_over_speed() {
    let now = sensors();
    assert_eq!(get_bullet_time(v(1_000 * ONE, 0), 1_000 * ONE, &now), Some(ONE));
    assert_eq!(get_bullet_time(v(3_000 * ONE, 4_000 * ONE), 4_000 * ONE, &now), Some(1_250_000));
    assert_eq!(get_bullet_time(v(0, 0), 1_000 * ONE, &now), Some(0));
}

#[test]
fn bullets_inherit_the_ships_velocity() {
    let now = moving(v(100 * ONE, 0));
    // ahead: 1000 m at 1100 m/s; astern: at 900 m/s; abeam: at 1000 m/s
    assert_eq!(get_bullet_time(v(1_000 * ONE, 0), 1_000 * ONE, &now), Some(909_090));
    assert_eq!(get_bullet_time(v(-1_000 * ONE, 0), 1_000 * ONE, &now), Some(1_111_111));
    assert_eq!(get_bullet_time(v(0, 1_000 * ONE), 1_000 * ONE, &now), Some(ONE));
}

#[test]
fn bullet_that_cannot_leave_the_ship_has_no_time() {
    // the ship backs away as fast as the bullet flies, and faster
    assert_eq!(get_bullet_time(v(1_000 * ONE, 0), 1_000 * ONE, &moving(v(-1_000 * ONE, 0))), None);
    assert_eq!(get_bullet_time(v(1_000 * ONE, 0), 1_000 * ONE, &moving(v(-2_000 * ONE, 0))), None);
    assert_eq!(get_bullet_time(v(1_000 * ONE, 0), 0, &sensors()), None);
    assert_eq!(get_bullet_time(v(1_000 * ONE, 0), -ONE, &sensors()), None);
    // just fast enough
    assert_eq!(
        get_bullet_time(v(1_000 * ONE, 0), 1_000 * ONE, &moving(v(-999 * ONE, 0))),
        Some(1_000 * ONE)
    );
}

#[test]
fn projection_under_constant_acceleration() {
    // 10 m/s for 3 s, and half of 2 m/s^2 times 9 s^2
    assert_eq!(project(v(0, 0), v(10 * ONE, 0), v(0, 2 * ONE), 3 * ONE), v(30 * ONE, 9 * ONE));
    assert_eq!(
        project(v(5 * ONE, 5 * ONE), v(-ONE, ONE), v(ONE, 0), 500_000),
        v(4_625_000, 5_500_000)
    );
    assert_eq!(project(v(7, 8), v(0, 0), v(0, 0), 123 * ONE), v(7, 8));
    assert_eq!(project(v(7, 8), v(ONE, ONE), v(ONE, ONE), 0), v(7, 8));
}

#[test]
fn lead_of_a_stationary_target_is_the_target() {
    let target = v(1_000 * ONE, 0);
    for passes in 0..12 {
        for tolerance in [0, 1, ONE, 1_000 * ONE] {
            let config = SolverConfig::within_tolerance(passes, tolerance);
            let point = lead(target, v(0, 0), v(0, 0), 1_000 * ONE, 25 * ONE, v(0, 0), &sensors(), &config);
            assert_eq!(point, target);
        }
    }
    let elsewhere = v(-123_456_789, 987_654_321);
    assert_eq!(
        lead(elsewhere, v(0, 0), v(0, 0), 4_000 * ONE, 25 * ONE, v(5, 5), &sensors(), &SolverConfig::standard()),
        elsewhere
    );
}

#[test]
fn end_to_end_stationary_target_dead_ahead() {
    let now = sensors();
    let target = v(1_000 * ONE, 0);
    let point =
        lead_from_self(target, v(0, 0), v(0, 0), 1_000 * ONE, 25 * ONE, &now, &SolverConfig::standard());
    assert_eq!(point, v(1_000 * ONE, 0));
    let size = get_angular_target_size(25 * ONE, point, &now);
    assert_eq!(size, 25_000);
    // firing is allowed while the nose is off by no more than 25 / 1000 / 2 = 0.0125 rad
    assert!(fire_gate(0, size));
    assert!(fire_gate(12_499, size));
    assert!(fire_gate(-12_499, size));
    assert!(fire_gate(12_500, size));
    assert!(fire_gate(-12_500, size));
    assert!(!fire_gate(12_501, size));
    assert!(!fire_gate(-12_501, size));
    assert!(!fire_gate(ONE, size));
}

#[test]
fn lead_of_a_crossing_target_after_a_fixed_number_of_passes() {
    let target = v(1_000 * ONE, 0);
    let velocity = v(0, 100 * ONE);
    let after = |passes: u32| {
        lead(
            target,
            velocity,
            v(0, 0),
            1_000 * ONE,
            25 * ONE,
            v(0, 0),
            &sensors(),
            &SolverConfig::fixed_passes(passes),
        )
    };
    assert_eq!(after(0), v(1_000 * ONE, 0));
    // one pass: the flight to the target's place now takes 1 s
    assert_eq!(after(1), v(1_000 * ONE, 100 * ONE));
    // two passes: the flight to (1000, 100) takes 1.004987 s
    assert_eq!(after(2), v(1_000 * ONE, 100_498_700));
    assert_eq!(after(3), v(1_000 * ONE, 100_503_700));
    assert_eq!(after(8), v(1_000 * ONE, 100_503_700));
}

#[test]
fn lead_of_a_crossing_target_meets_it() {
    // the exact meeting point: t = 1000 / sqrt(1000^2 - 100^2) s = 1.00503781... s
    let target = v(1_000 * ONE, 0);
    let velocity = v(0, 100 * ONE);
    let point =
        lead_from_self(target, velocity, v(0, 0), 1_000 * ONE, 25 * ONE, &sensors(), &SolverConfig::standard());
    assert_eq!(point, v(1_000 * ONE, 100_503_700));
    // the lead point is where the target is after the bullet's flight to the lead point
    let time = get_bullet_time(point, 1_000 * ONE, &sensors()).unwrap();
    let residual = point.minus(target).minus(velocity.scaled(time));
    assert!(residual.length() <= 100);
}

#[test]
fn solver_stops_at_the_tolerance() {
    let shot = Shot {
        target: v(1_000 * ONE, 0),
        target_velocity: v(0, 100 * ONE),
        target_acceleration: v(0, 0),
        bullet_speed: 1_000 * ONE,
        target_size: 25 * ONE,
        origin: v(0, 0),
    };
    let with = |tolerance: i64| solve(&shot, &sensors(), &SolverConfig::within_tolerance(8, tolerance));
    // the target is 0.0249 rad wide; the estimates move by 100 m, 0.4987 m, 0.005 m
    assert_eq!(with(0), v(1_000 * ONE, 100_503_700));
    assert_eq!(with(ONE), v(1_000 * ONE, 100_503_700));
    assert_eq!(with(100 * ONE), v(1_000 * ONE, 100_498_700));
    assert_eq!(with(1_000_000 * ONE), v(1_000 * ONE, 100 * ONE));
}

#[test]
fn lead_of_an_accelerating_target() {
    let point = lead(
        v(1_000 * ONE, 0),
        v(0, 100 * ONE),
        v(0, 20 * ONE),
        1_000 * ONE,
        25 * ONE,
        v(0, 0),
        &sensors(),
        &SolverConfig::fixed_passes(8),
    );
    assert_eq!(point, v(1_000 * ONE, 110_733_800));
    let one_pass = lead(
        v(1_000 * ONE, 0),
        v(0, 100 * ONE),
        v(0, 20 * ONE),
        1_000 * ONE,
        25 * ONE,
        v(0, 0),
        &sensors(),
        &SolverConfig::fixed_passes(1),
    );
    // 100 m/s for 1 s and half of 20 m/s^2 times 1 s^2
    assert_eq!(one_pass, v(1_000 * ONE, 110 * ONE));
}

#[test]
fn lead_subtracts_the_ships_own_displacement() {
    // the ship drifts sideways at 50 m/s; the flight takes 1 s
    let now = moving(v(0, 50 * ONE));
    let point =
        lead_from_self(v(1_000 * ONE, 0), v(0, 0), v(0, 0), 1_000 * ONE, 25 * ONE, &now, &SolverConfig::standard());
    assert_eq!(point, v(1_000 * ONE, -50 * ONE));
    // the ship closes at 100 m/s; the flight takes 0.909090 s
    let closing = moving(v(100 * ONE, 0));
    let point = lead_from_self(
        v(1_000 * ONE, 0),
        v(0, 0),
        v(0, 0),
        1_000 * ONE,
        25 * ONE,
        &closing,
        &SolverConfig::standard(),
    );
    assert_eq!(point, v(909_091_000, 0));
}

#[test]
fn lead_from_a_turret_beside_the_centre_line() {
    let config = SolverConfig::standard();
    let target = v(1_000 * ONE, 0);
    let velocity = v(0, 100 * ONE);
    let right = lead(target, velocity, v(0, 0), 1_000 * ONE, 25 * ONE, v(0, 10 * ONE), &sensors(), &config);
    let left = lead(target, velocity, v(0, 0), 1_000 * ONE, 25 * ONE, v(0, -10 * ONE), &sensors(), &config);
    assert_eq!(right, v(1_000 * ONE, 100_407_800));
    assert_eq!(left, v(1_000 * ONE, 100_609_700));
}

#[test]
fn faster_bullets_need_less_lead() {
    let point = lead_from_self(
        v(1_000 * ONE, 0),
        v(0, 100 * ONE),
        v(0, 0),
        4_000 * ONE,
        25 * ONE,
        &sensors(),
        &SolverConfig::standard(),
    );
    assert_eq!(point, v(1_000 * ONE, 25_007_800));
}

#[test]
fn lead_without_a_solution_reports_the_last_estimate() {
    // a bullet without speed gets nowhere: the estimate stays at the target
    let point = lead(
        v(1_000 * ONE, 0),
        v(0, 100 * ONE),
        v(0, 0),
        0,
        25 * ONE,
        v(0, 0),
        &sensors(),
        &SolverConfig::standard(),
    );
    assert_eq!(point, v(1_000 * ONE, 0));
    // the ship backs away faster than its bullets fly
    let point = lead(
        v(1_000 * ONE, 0),
        v(0, 100 * ONE),
        v(0, 0),
        1_000 * ONE,
        25 * ONE,
        v(0, 0),
        &moving(v(-1_500 * ONE, 0)),
        &SolverConfig::standard(),
    );
    assert_eq!(point, v(1_000 * ONE, 0));
}

#[test]
fn solver_ends_when_the_target_outruns_the_bullet() {
    // the estimates run away until they stick at the bound, 64 passes and no more
    let point = lead(
        v(1_000 * ONE, 0),
        v(2_000 * ONE, 0),
        v(0, 0),
        1_000 * ONE,
        25 * ONE,
        v(0, 0),
        &sensors(),
        &SolverConfig::standard(),
    );
    assert_eq!(point, v(i64::MAX, 0));
    let eight = lead(
        v(1_000 * ONE, 0),
        v(2_000 * ONE, 0),
        v(0, 0),
        1_000 * ONE,
        25 * ONE,
        v(0, 0),
        &sensors(),
        &SolverConfig::fixed_passes(8),
    );
    assert_eq!(eight, v(511_000 * ONE, 0));
}

#[test]
fn lead_of_a_target_that_recedes_at_half_the_bullets_speed() {
    // the bullet catches up at 2000 m after 2 s; each pass halves what is missing
    let target = v(1_000 * ONE, 0);
    let velocity = v(500 * ONE, 0);
    let point =
        lead_from_self(target, velocity, v(0, 0), 1_000 * ONE, 25 * ONE, &sensors(), &SolverConfig::standard());
    assert_eq!(point, v(1_999_992_000, 0));
    // the target is 25 / 2000 rad wide there: the estimate is within 0.0125 m of the meeting point
    assert!(2_000 * ONE - point.x < 12_500);
    let time = get_bullet_time(point, 1_000 * ONE, &sensors()).unwrap();
    let residual = point.minus(target).minus(velocity.scaled(time));
    assert!(residual.length() < 12_500);
    // eight passes are not enough
    let eight = lead_from_self(
        target,
        velocity,
        v(0, 0),
        1_000 * ONE,
        25 * ONE,
        &sensors(),
        &SolverConfig::within_tolerance(8, ONE),
    );
    assert_eq!(eight, v(1_996_093_500, 0));
}

#[test]
fn solver_with_extreme_inputs_ends() {
    let extremes = [i64::MIN, -1, 0, 1, i64::MAX];
    for a in extremes {
        for b in extremes {
            let shot = Shot {
                target: v(a, b),
                target_velocity: v(b, a),
                target_acceleration: v(a, a),
                bullet_speed: b,
                target_size: a,
                origin: v(b, b),
            };
            solve(&shot, &moving(v(a, b)), &SolverConfig::within_tolerance(50, b));
        }
    }
}

#[test]
fn bullet_speed_adds_the_ships_velocity_along_the_line() {
    let now = moving(v(100 * ONE, 0));
    assert_eq!(get_bullet_speed(v(1_000 * ONE, 0), 1_000 * ONE, &now), 1_100 * ONE);
    assert_eq!(get_bullet_speed(v(-5, 0), 1_000 * ONE, &now), 900 * ONE);
    assert_eq!(get_bullet_speed(v(0, 77), 1_000 * ONE, &now), 1_000 * ONE);
    assert_eq!(get_bullet_speed(v(0, 0), 1_000 * ONE, &now), 1_000 * ONE);
    // along (3, 4) a fifth of (100, 0) counts three times
    assert_eq!(get_bullet_speed(v(3 * ONE, 4 * ONE), 0, &now), 60 * ONE);
}

#[test]
fn time_to_encounter_is_distance_over_speed() {
    assert_eq!(time_to_encounter(v(3_000 * ONE, 4_000 * ONE), 2_000 * ONE), Some(2_500_000));
    assert_eq!(time_to_encounter(v(3_000 * ONE, 4_000 * ONE), 0), None);
    assert_eq!(time_to_encounter(v(3_000 * ONE, 4_000 * ONE), -ONE), None);
    assert_eq!(time_to_encounter(v(0, 0), ONE), Some(0));
    // a millionth of a metre per second: the time sticks at the bound
    assert_eq!(time_to_encounter(v(i64::MAX, 0), 1), Some(i64::MAX));
}

#[test]
fn lead_of_a_steady_target_meets_it_within_the_tolerance() {
    let now = sensors();
    let shots = [
        (v(1_000 * ONE, 0), v(0, 100 * ONE), 1_000 * ONE),
        (v(1_000 * ONE, 0), v(500 * ONE, 0), 1_000 * ONE),
        (v(-3_000 * ONE, 4_000 * ONE), v(250 * ONE, -120 * ONE), 2_000 * ONE),
        (v(200 * ONE, -50 * ONE), v(-700 * ONE, 600 * ONE), 1_000 * ONE),
        (v(150_000 * ONE, 90_000 * ONE), v(1_500 * ONE, -1_000 * ONE), 4_000 * ONE),
    ];
    for (target, velocity, speed) in shots {
        let config = SolverConfig::standard();
        let point = lead_from_self(target, velocity, v(0, 0), speed, 25 * ONE, &now, &config);
        let time = get_bullet_time(point, speed, &now).unwrap();
        let residual = point.minus(target).minus(velocity.scaled(time));
        // the tolerance at the lead point, the target's travel in a millionth of a second,
        // and a millionth
        let tolerance = get_angular_target_size(25 * ONE, point, &now);
        assert!(residual.x.abs() <= tolerance + velocity.x.abs() / ONE + 1, "{:?}", target);
        assert!(residual.y.abs() <= tolerance + velocity.y.abs() / ONE + 1, "{:?}", target);
    }
}
