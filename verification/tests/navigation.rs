use fleet::navigation::{
    calculate_dogfight_acceleration, calculate_prop_nav_acceleration, clip_to_envelope,
    forward_share, get_angular_speed, get_max_acceleration, lateral_share, turn,
    turn_acceleration, turn_to_static,
};
use fleet::sensor::SensorSnapshot;
use fleet::vector::Vector2;

const ONE: i64 = 1_000_000;
const PI: i64 = 3_141_593;
const TAU: i64 = 6_283_185;
const QUARTER: i64 = 1_570_796;

fn v(x: i64, y: i64) -> Vector2 {
    Vector2::new(x, y)
}

/// A fighter at rest at the origin, nose along the first axis.
fn sensors() -> SensorSnapshot {
    SensorSnapshot {
        position: Vector2::zero(),
        velocity: Vector2::zero(),
        heading: 0,
        heading_direction: v(ONE, 0),
        angular_velocity: 0,
        max_forward_acceleration: 60 * ONE,
        max_backward_acceleration: 30 * ONE,
        max_lateral_acceleration: 30 * ONE,
        max_angular_acceleration: TAU,
        radar_heading: 0,
        radar_width: 0,
        gun_reload_ticks: 0,
        missile_reload_ticks: 0,
        contact: None,
    }
}

fn turning(angular_velocity: i64) -> SensorSnapshot {
    let mut now = sensors();
    now.angular_velocity = angular_velocity;
    now
}

#[test]
fn turn_is_at_rest_at_the_goal() {
    assert_eq!(turn(0, 0, &sensors()), 0);
}

#[test]
fn turn_commands_nothing_without_an_angle_to_close() {
    assert_eq!(turn(0, 0, &turning(2 * ONE)), 0);
    assert_eq!(turn(0, 3 * ONE, &turning(-2 * ONE)), 0);
    assert_eq!(turn_to_static(0, &turning(ONE)), 0);
}

#[test]
fn turn_accelerates_towards_the_angle() {
    assert_eq!(turn(ONE, 0, &sensors()), TAU);
    assert_eq!(turn(-ONE, 0, &sensors()), -TAU);
    assert_eq!(turn_to_static(ONE, &sensors()), TAU);
    assert_eq!(turn_to_static(-ONE, &sensors()), -TAU);
}

#[test]
fn turn_acceleration_closes_a_small_angle_within_one_tick() {
    // 0.0001 rad: 2 * 0.0001 * 60 * 60 = 0.72 rad/s^2, below the limit
    assert_eq!(turn_acceleration(100, TAU), 720_000);
    assert_eq!(turn_acceleration(-100, TAU), 720_000);
    assert_eq!(turn(100, 0, &sensors()), 720_000);
    assert_eq!(turn(-100, 0, &sensors()), -720_000);
}

#[test]
fn turn_acceleration_is_capped_by_the_limit() {
    assert_eq!(turn_acceleration(ONE, TAU), TAU);
    assert_eq!(turn_acceleration(i64::MAX, TAU), TAU);
    assert_eq!(turn_acceleration(i64::MIN, TAU), TAU);
    assert_eq!(turn_acceleration(ONE, 0), 0);
    assert_eq!(turn_acceleration(ONE, -5), 0);
    assert_eq!(turn_acceleration(0, TAU), 0);
}

#[test]
fn turn_brakes_when_the_angle_is_inside_the_stopping_distance() {
    // at 2 rad/s the ship needs 0.318 s and 0.318 rad to stop; 0.1 rad is inside
    assert_eq!(turn(100_000, 0, &turning(2 * ONE)), -TAU);
    assert_eq!(turn(100_000, 0, &turning(-2 * ONE)), TAU);
    assert_eq!(turn(-100_000, 0, &turning(-2 * ONE)), TAU);
}

#[test]
fn turn_leads_a_target_that_moves_round_the_ship() {
    // stopping relative to the target takes 1.5 / 6.283185 = 0.238732 s and 0.059682 rad;
    // the angle, moved on by a fifth of the target's travel, is 0.147746 rad
    assert_eq!(turn(100_000, ONE, &turning(500_000)), TAU);
    // a ship that does not turn brakes against a velocity of 0 as against one above 0
    assert_eq!(turn(1_000, 3 * ONE, &sensors()), -TAU);
}

#[test]
fn turn_without_angular_authority_commands_nothing() {
    let mut now = turning(ONE);
    now.max_angular_acceleration = 0;
    assert_eq!(turn(ONE, 0, &now), 0);
    now.max_angular_acceleration = -5;
    assert_eq!(turn(ONE, 0, &now), 0);
}

#[test]
fn turn_never_commands_more_than_the_limit() {
    let values = [i64::MIN, -TAU, -ONE, -1, 0, 1, ONE, TAU, i64::MAX];
    for angle in values {
        for rate in values {
            for velocity in values {
                let torque = turn(angle, rate, &turning(velocity));
                assert!(-TAU <= torque && torque <= TAU);
                if angle == 0 {
                    assert_eq!(torque, 0);
                }
            }
        }
    }
}

#[test]
fn angular_speed_of_a_crossing_target() {
    let now = sensors();
    // 100 m/s across the line of sight at 1000 m
    assert_eq!(get_angular_speed(v(1_000 * ONE, 0), v(0, 100 * ONE), &now), 100_000);
    assert_eq!(get_angular_speed(v(1_000 * ONE, 0), v(0, -100 * ONE), &now), -100_000);
    // along the line of sight the line does not turn
    assert_eq!(get_angular_speed(v(1_000 * ONE, 0), v(-300 * ONE, 0), &now), 0);
}

#[test]
fn angular_speed_counts_the_ships_own_velocity() {
    let mut now = sensors();
    now.velocity = v(0, 40 * ONE);
    assert_eq!(get_angular_speed(v(1_000 * ONE, 0), v(0, 100 * ONE), &now), 60_000);
}

#[test]
fn angular_speed_of_a_target_at_the_ships_own_position_is_zero() {
    assert_eq!(get_angular_speed(v(0, 0), v(0, 100 * ONE), &sensors()), 0);
}

#[test]
fn prop_nav_flies_straight_at_a_target_on_a_steady_line_of_sight() {
    // the target crosses but the distance does not change: no lateral demand
    let acceleration = calculate_prop_nav_acceleration(v(1_000 * ONE, 0), v(0, 100 * ONE), &sensors());
    assert_eq!(acceleration, v(60 * ONE, 0));
}

#[test]
fn prop_nav_splits_the_limit_between_line_of_sight_and_lateral_demand() {
    // line of sight turns at 0.05 rad/s, the distance changes at -100 m/s:
    // lateral demand 4 * 0.05 * -100 = -20, along sqrt(60^2 - 20^2) = 56.568542
    let acceleration =
        calculate_prop_nav_acceleration(v(1_000 * ONE, 0), v(-100 * ONE, 50 * ONE), &sensors());
    assert_eq!(acceleration, v(56_568_542, 20 * ONE));
    let mirrored =
        calculate_prop_nav_acceleration(v(1_000 * ONE, 0), v(-100 * ONE, -50 * ONE), &sensors());
    assert_eq!(mirrored, v(56_568_542, -20 * ONE));
}

#[test]
fn prop_nav_falls_back_to_full_thrust_along_the_relative_velocity() {
    // 10 m away, crossing at 5000 m/s: the line of sight turns at 500 rad/s
    let acceleration =
        calculate_prop_nav_acceleration(v(10 * ONE, 0), v(-1_000 * ONE, 5_000 * ONE), &sensors());
    assert_eq!(acceleration, v(-11_766_960, 58_834_800));
    let squared = (acceleration.x as i128).pow(2) + (acceleration.y as i128).pow(2);
    assert!(squared <= (60 * ONE as i128).pow(2));
}

#[test]
fn prop_nav_never_exceeds_the_forward_limit() {
    let places = [v(10 * ONE, 0), v(-3, 7), v(1_000 * ONE, -2_000 * ONE), v(0, 0), v(i64::MAX, i64::MIN)];
    let velocities = [
        v(0, 0),
        v(5_000 * ONE, -1_000 * ONE),
        v(-100 * ONE, 50 * ONE),
        v(i64::MIN, i64::MAX),
        v(1, -1),
    ];
    let limits = [0, 1, 60 * ONE, 300 * ONE, i64::MAX, -60 * ONE];
    for place in places {
        for velocity in velocities {
            for limit in limits {
                let mut now = sensors();
                now.max_forward_acceleration = limit;
                now.velocity = v(30 * ONE, -40 * ONE);
                let acceleration = calculate_prop_nav_acceleration(place, velocity, &now);
                let squared = (acceleration.x as i128).pow(2) + (acceleration.y as i128).pow(2);
                assert!(squared <= (limit as i128).pow(2));
            }
        }
    }
}

#[test]
fn prop_nav_at_the_targets_own_position_commands_nothing() {
    assert_eq!(calculate_prop_nav_acceleration(v(0, 0), v(0, 0), &sensors()), v(0, 0));
    assert_eq!(calculate_prop_nav_acceleration(v(0, 0), v(3 * ONE, 4 * ONE), &sensors()), v(0, 0));
}

#[test]
fn prop_nav_without_thrust_commands_nothing() {
    let mut now = sensors();
    now.max_forward_acceleration = 0;
    assert_eq!(
        calculate_prop_nav_acceleration(v(1_000 * ONE, 0), v(-100 * ONE, 50 * ONE), &now),
        v(0, 0)
    );
}

#[test]
fn envelope_along_the_axes() {
    let (f, b, l) = (60 * ONE, 30 * ONE, 30 * ONE);
    assert_eq!(clip_to_envelope(v(ONE, 0), f, b, l), v(60 * ONE, 0));
    assert_eq!(clip_to_envelope(v(-ONE, 0), f, b, l), v(-30 * ONE, 0));
    assert_eq!(clip_to_envelope(v(0, ONE), f, b, l), v(0, 30 * ONE));
    assert_eq!(clip_to_envelope(v(0, -ONE), f, b, l), v(0, -30 * ONE));
    assert_eq!(clip_to_envelope(v(0, 0), f, b, l), v(0, 0));
}

#[test]
fn envelope_keeps_the_direction() {
    let (f, b, l) = (60 * ONE, 30 * ONE, 30 * ONE);
    // the lateral limit binds
    assert_eq!(clip_to_envelope(v(ONE, ONE), f, b, l), v(30 * ONE, 30 * ONE));
    assert_eq!(clip_to_envelope(v(-ONE, 3 * ONE), f, b, l), v(-10 * ONE, 30 * ONE));
    assert_eq!(clip_to_envelope(v(1, -3), f, b, l), v(10 * ONE, -30 * ONE));
    // both bind
    assert_eq!(clip_to_envelope(v(2 * ONE, ONE), f, b, l), v(60 * ONE, 30 * ONE));
    assert_eq!(clip_to_envelope(v(-ONE, -ONE), f, b, l), v(-30 * ONE, -30 * ONE));
    // the forward limit binds
    assert_eq!(clip_to_envelope(v(4 * ONE, ONE), f, b, l), v(60 * ONE, 15 * ONE));
    assert_eq!(clip_to_envelope(v(7, 2), f, b, l), v(60 * ONE, 17_142_857));
}

#[test]
fn envelope_of_a_platform_without_thrust_is_empty() {
    assert_eq!(clip_to_envelope(v(ONE, ONE), 0, 0, 0), v(0, 0));
    assert_eq!(clip_to_envelope(v(ONE, ONE), -5, 30 * ONE, 30 * ONE), v(0, 0));
    assert_eq!(clip_to_envelope(v(ONE, ONE), 60 * ONE, 30 * ONE, -1), v(0, 0));
    assert_eq!(clip_to_envelope(v(ONE, ONE), 60 * ONE, 30 * ONE, 0), v(0, 0));
    assert_eq!(clip_to_envelope(v(ONE, 0), 60 * ONE, 30 * ONE, 0), v(60 * ONE, 0));
    // no way back for a missile
    assert_eq!(clip_to_envelope(v(-ONE, 0), 300 * ONE, 0, 100 * ONE), v(0, 0));
    assert_eq!(clip_to_envelope(v(-ONE, ONE), 300 * ONE, 0, 100 * ONE), v(0, 0));
}

#[test]
fn envelope_of_extreme_directions() {
    assert_eq!(
        clip_to_envelope(v(i64::MIN, i64::MIN), i64::MAX, i64::MAX, i64::MAX),
        v(-i64::MAX, -i64::MAX)
    );
    assert_eq!(clip_to_envelope(v(i64::MIN, 1), i64::MAX, i64::MAX, i64::MAX), v(-i64::MAX, 0));
    assert_eq!(clip_to_envelope(v(3, i64::MIN), i64::MAX, 7, i64::MAX), v(2, -i64::MAX));
}

#[test]
fn envelope_is_never_left() {
    let directions = [v(1, 0), v(-5, 3), v(7, -2), v(-1, -1), v(0, 9), v(i64::MAX, 1), v(1, i64::MIN)];
    for direction in directions {
        let thrust = clip_to_envelope(direction, 60 * ONE, 30 * ONE, 20 * ONE);
        assert!(-30 * ONE <= thrust.x && thrust.x <= 60 * ONE);
        assert!(-20 * ONE <= thrust.y && thrust.y <= 20 * ONE);
        assert!(thrust.x == 60 * ONE || thrust.x == -30 * ONE || thrust.y.abs() == 20 * ONE);
    }
}

#[test]
fn max_acceleration_is_taken_in_the_ships_frame() {
    // nose along the second axis
    let mut now = sensors();
    now.heading = QUARTER;
    now.heading_direction = v(0, ONE);
    assert_eq!(get_max_acceleration(v(0, ONE), &now), v(0, 60 * ONE));
    assert_eq!(get_max_acceleration(v(0, -ONE), &now), v(0, -30 * ONE));
    assert_eq!(get_max_acceleration(v(ONE, 0), &now), v(30 * ONE, 0));
    assert_eq!(get_max_acceleration(v(-ONE, 0), &now), v(-30 * ONE, 0));
    assert_eq!(get_max_acceleration(v(0, 0), &now), v(0, 0));
}

#[test]
fn max_acceleration_straight_ahead_is_the_forward_limit() {
    assert_eq!(get_max_acceleration(v(5, 0), &sensors()), v(60 * ONE, 0));
    assert_eq!(get_max_acceleration(v(-5, 0), &sensors()), v(-30 * ONE, 0));
}

#[test]
fn dogfight_closes_in_on_a_distant_target() {
    // at 1000 m: a fifth of the closing thrust, no sideways thrust; the envelope gives the length
    assert_eq!(
        calculate_dogfight_acceleration(v(1_000 * ONE, 0), 0, 0, PI, &sensors()),
        v(60 * ONE, 0)
    );
    assert_eq!(
        calculate_dogfight_acceleration(v(6_000 * ONE, 0), 0, 0, PI, &sensors()),
        v(60 * ONE, 0)
    );
}

#[test]
fn dogfight_moves_sideways_near_the_target() {
    // at 250 m: closing share 0.05, sideways share 0.5, to the right of the line of sight
    // for a target that moves round the ship counter-clockwise or not at all
    assert_eq!(
        calculate_dogfight_acceleration(v(250 * ONE, 0), 0, 0, PI, &sensors()),
        v(3 * ONE, -30 * ONE)
    );
    assert_eq!(
        calculate_dogfight_acceleration(v(250 * ONE, 0), 0, ONE, PI, &sensors()),
        v(3 * ONE, -30 * ONE)
    );
    // and to the left for one that moves clockwise
    assert_eq!(
        calculate_dogfight_acceleration(v(250 * ONE, 0), 0, -1, PI, &sensors()),
        v(3 * ONE, 30 * ONE)
    );
}

#[test]
fn dogfight_in_a_turned_frame() {
    let mut now = sensors();
    now.position = v(100 * ONE, 0);
    now.heading = QUARTER;
    now.heading_direction = v(0, ONE);
    assert_eq!(
        calculate_dogfight_acceleration(v(100 * ONE, 2_000 * ONE), QUARTER, ONE, PI, &now),
        v(0, 60 * ONE)
    );
    // 100 m ahead: closing share 0.02, sideways share 0.8
    assert_eq!(
        calculate_dogfight_acceleration(v(100 * ONE, 100 * ONE), QUARTER, ONE, PI, &now),
        v(30 * ONE, 750_000)
    );
}

#[test]
fn dogfight_does_not_thrust_towards_a_target_outside_the_cone() {
    // the target is 2 rad off the nose, the cone is a quarter turn wide
    assert_eq!(
        calculate_dogfight_acceleration(v(250 * ONE, 0), 2 * ONE, 0, QUARTER, &sensors()),
        v(0, 0)
    );
    assert_eq!(
        calculate_dogfight_acceleration(v(250 * ONE, 0), -2 * ONE, 0, QUARTER, &sensors()),
        v(0, 0)
    );
    // on the edge of the cone it still thrusts
    assert_eq!(
        calculate_dogfight_acceleration(v(250 * ONE, 0), QUARTER, 0, QUARTER, &sensors()),
        v(3 * ONE, -30 * ONE)
    );
    assert_eq!(
        calculate_dogfight_acceleration(v(250 * ONE, 0), QUARTER + 1, 0, QUARTER, &sensors()),
        v(0, 0)
    );
}

#[test]
fn dogfight_at_the_targets_own_position_commands_nothing() {
    assert_eq!(calculate_dogfight_acceleration(v(0, 0), 0, 0, PI, &sensors()), v(0, 0));
}

#[test]
fn envelope_is_reached_in_every_direction() {
    let (f, b, l) = (60 * ONE, 30 * ONE, 20 * ONE);
    for x in [-7i64, -1, 0, 1, 3, 1_000_000] {
        for y in [-5i64, -1, 0, 1, 2, 999] {
            if x == 0 && y == 0 {
                continue;
            }
            let thrust = clip_to_envelope(v(x, y), f, b, l);
            assert!(thrust.x == f || thrust.x == -b || thrust.y == l || thrust.y == -l);
            // the thrust points the way of the direction
            assert!(x.signum() * thrust.x >= 0 && y.signum() * thrust.y >= 0);
            let turned = (x as i128) * (thrust.y as i128) - (y as i128) * (thrust.x as i128);
            assert!(turned.abs() <= (x.abs().max(y.abs())) as i128);
        }
    }
}

#[test]
fn closing_thrust_fades_below_five_kilometres() {
    assert_eq!(forward_share(0), 0);
    assert_eq!(forward_share(1_000 * ONE), 200_000);
    assert_eq!(forward_share(2_500 * ONE), 500_000);
    assert_eq!(forward_share(5_000 * ONE), ONE);
    assert_eq!(forward_share(50_000 * ONE), ONE);
    assert_eq!(forward_share(i64::MAX), ONE);
}

#[test]
fn sideways_thrust_sets_in_below_five_hundred_metres() {
    assert_eq!(lateral_share(0), ONE);
    assert_eq!(lateral_share(100 * ONE), 800_000);
    assert_eq!(lateral_share(250 * ONE), 500_000);
    assert_eq!(lateral_share(499_999_999), 0);
    assert_eq!(lateral_share(499_999_000), 2);
    assert_eq!(lateral_share(500 * ONE), 0);
    assert_eq!(lateral_share(5_000 * ONE), 0);
    assert_eq!(lateral_share(i64::MAX), 0);
}

#[test]
fn dogfight_thrust_stays_within_reach_of_the_thrusters() {
    let headings = [v(ONE, 0), v(0, ONE), v(-600_000, 800_000), v(707_106, -707_106)];
    let targets = [v(250 * ONE, 0), v(-100 * ONE, 30 * ONE), v(0, -4_000 * ONE), v(7, 7)];
    for heading_direction in headings {
        for target in targets {
            for rate in [-ONE, 0, ONE] {
                let mut now = sensors();
                now.heading_direction = heading_direction;
                let thrust = calculate_dogfight_acceleration(target, 0, rate, PI, &now);
                let squared = (thrust.x as i128).pow(2) + (thrust.y as i128).pow(2);
                // the far corner of the envelope is at (60, 30)
                assert!(squared <= (60 * ONE as i128).pow(2) + (30 * ONE as i128).pow(2));
            }
        }
    }
}
