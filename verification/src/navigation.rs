//! The guidance controller: where to thrust and how hard to turn.

use vstd::prelude::*;
use crate::angle::{angle_diff, spec_angle_diff};
use crate::fixed::{
    fx_abs, fx_add, fx_div, fx_half, fx_leg, fx_mul, fx_neg, fx_sub, lemma_product_bound,
    lemma_trunc_div_shrinks, spec_fx_abs, spec_fx_add, spec_fx_div, spec_fx_half, spec_fx_leg,
    spec_fx_mul, spec_fx_neg, spec_fx_sub, Fixed, ONE,
};
use crate::sensor::SensorSnapshot;
use crate::settings::{
    ANGULAR_SPEED_PREDICTION_FACTOR, MAX_FORWARD_DIST, MIN_LATERAL_DIST, N_FACTOR, ONE_TICK_GAIN,
};
use crate::utility::{normal_vector, spec_normal_vector};
use crate::vector::{
    lemma_length_within, lemma_rotated_is_no_longer, lemma_scaled_is_no_longer, Vector2,
};

verus! {

/// The angular acceleration that the turn controller applies: what closes
/// `angle` within one tick, capped by the platform's limit, and never below
/// 0.
pub open spec fn spec_turn_acceleration(angle: Fixed, max_angular_acceleration: Fixed) -> Fixed {
    let wanted = fx_mul(fx_abs(angle), ONE_TICK_GAIN);
    let capped = if wanted < max_angular_acceleration {
        wanted
    } else {
        max_angular_acceleration
    };
    if capped < 0 {
        0
    } else {
        capped
    }
}

/// The angular acceleration that the turn controller applies.
#[verifier::when_used_as_spec(spec_turn_acceleration)]
pub fn turn_acceleration(angle: Fixed, max_angular_acceleration: Fixed) -> (acceleration: Fixed)
    ensures
        acceleration == spec_turn_acceleration(angle, max_angular_acceleration),
        0 <= acceleration,
        max_angular_acceleration >= 0 ==> acceleration <= max_angular_acceleration,
        angle == 0 ==> acceleration == 0,
{
    let wanted = fx_mul(fx_abs(angle), ONE_TICK_GAIN);
    let capped = if wanted < max_angular_acceleration {
        wanted
    } else {
        max_angular_acceleration
    };
    if capped < 0 {
        0
    } else {
        capped
    }
}

/// The time it takes to stop turning relative to the target, at the angular
/// acceleration `acceleration`.
pub open spec fn spec_time_to_stop(
    angular_velocity: Fixed,
    target_angular_speed: Fixed,
    acceleration: Fixed,
) -> Fixed {
    fx_div(fx_abs(fx_add(angular_velocity, target_angular_speed)), acceleration)
}

/// The angle covered while stopping.
pub open spec fn spec_distance_to_stop(
    angular_velocity: Fixed,
    time_to_stop: Fixed,
    acceleration: Fixed,
) -> Fixed {
    fx_abs(
        fx_sub(
            fx_mul(fx_abs(angular_velocity), time_to_stop),
            fx_mul(fx_mul(fx_half(acceleration), time_to_stop), time_to_stop),
        ),
    )
}

/// The angle to close, moved by a share of what the target will turn while
/// the ship stops.
pub open spec fn spec_biased_angle(
    angle: Fixed,
    target_angular_speed: Fixed,
    time_to_stop: Fixed,
) -> Fixed {
    fx_add(
        angle,
        fx_mul(fx_mul(ANGULAR_SPEED_PREDICTION_FACTOR, target_angular_speed), time_to_stop),
    )
}

/// The torque that the turn controller commands.
pub open spec fn spec_turn(
    angle: Fixed,
    target_angular_speed: Fixed,
    angular_velocity: Fixed,
    max_angular_acceleration: Fixed,
) -> Fixed {
    let acceleration = spec_turn_acceleration(angle, max_angular_acceleration);
    if acceleration == 0 {
        0
    } else {
        let time_to_stop = spec_time_to_stop(angular_velocity, target_angular_speed, acceleration);
        let distance_to_stop = spec_distance_to_stop(angular_velocity, time_to_stop, acceleration);
        let biased = spec_biased_angle(angle, target_angular_speed, time_to_stop);
        if distance_to_stop < fx_abs(biased) {
            if biased >= 0 {
                acceleration
            } else {
                fx_neg(acceleration)
            }
        } else {
            if angular_velocity >= 0 {
                fx_neg(acceleration)
            } else {
                acceleration
            }
        }
    }
}

/// The turn controller. `angle` is the rotation still to make and
/// `target_angular_speed` the rate at which the target moves round the ship.
/// The ship accelerates towards the angle while the angle, moved ahead by a
/// share of the target's travel, is further off than the ship needs to stop
/// turning; from then on it brakes, that is, it accelerates against its
/// angular velocity (against a velocity of 0 as against one above 0). Either
/// way it uses the full angular acceleration, never more than what closes
/// the angle within one tick. With no angle to close the torque is 0.
pub fn turn(angle: Fixed, target_angular_speed: Fixed, sensors: &SensorSnapshot) -> (torque: Fixed)
    ensures
        torque == spec_turn(
            angle,
            target_angular_speed,
            sensors.angular_velocity,
            sensors.max_angular_acceleration,
        ),
        torque == spec_turn_acceleration(angle, sensors.max_angular_acceleration) || torque
            == -spec_turn_acceleration(angle, sensors.max_angular_acceleration),
        sensors.max_angular_acceleration >= 0 ==> -sensors.max_angular_acceleration <= torque
            <= sensors.max_angular_acceleration,
        angle == 0 ==> torque == 0,
        angle == 0 && sensors.angular_velocity == 0 && target_angular_speed == 0 ==> torque == 0,
{
    let acceleration = turn_acceleration(angle, sensors.max_angular_acceleration);
    if acceleration == 0 {
        return 0;
    }
    let time_to_stop = fx_div(
        fx_abs(fx_add(sensors.angular_velocity, target_angular_speed)),
        acceleration,
    );
    let distance_to_stop = fx_abs(
        fx_sub(
            fx_mul(fx_abs(sensors.angular_velocity), time_to_stop),
            fx_mul(fx_mul(fx_half(acceleration), time_to_stop), time_to_stop),
        ),
    );
    let biased = fx_add(
        angle,
        fx_mul(fx_mul(ANGULAR_SPEED_PREDICTION_FACTOR, target_angular_speed), time_to_stop),
    );
    if distance_to_stop < fx_abs(biased) {
        if biased >= 0 {
            acceleration
        } else {
            -acceleration
        }
    } else {
        if sensors.angular_velocity >= 0 {
            -acceleration
        } else {
            acceleration
        }
    }
}

/// The turn controller for a target that does not move round the ship.
pub fn turn_to_static(angle: Fixed, sensors: &SensorSnapshot) -> (torque: Fixed)
    ensures
        torque == spec_turn(
            angle,
            0,
            sensors.angular_velocity,
            sensors.max_angular_acceleration,
        ),
        sensors.max_angular_acceleration >= 0 ==> -sensors.max_angular_acceleration <= torque
            <= sensors.max_angular_acceleration,
        angle == 0 ==> torque == 0,
{
    turn(angle, 0, sensors)
}

/// The rate at which the line of sight to the target turns: the relative
/// velocity across the line of sight, over the distance.
pub open spec fn spec_get_angular_speed(
    target: Vector2,
    target_velocity: Vector2,
    sensors: SensorSnapshot,
) -> Fixed {
    let relative_position = target.minus(sensors.position);
    let across = normal_vector(relative_position.normalized());
    fx_div(
        fx_sub(across.dot(target_velocity), across.dot(sensors.velocity)),
        relative_position.length(),
    )
}

/// The rate at which the target moves round the ship, in radians per second:
/// above 0 counter-clockwise.
pub fn get_angular_speed(target: Vector2, target_velocity: Vector2, sensors: &SensorSnapshot) -> (rate:
    Fixed)
    ensures
        rate == spec_get_angular_speed(target, target_velocity, *sensors),
{
    let relative_position = target.minus(sensors.position);
    let across = normal_vector(relative_position.normalized());
    fx_div(
        fx_sub(across.dot(target_velocity), across.dot(sensors.velocity)),
        relative_position.length(),
    )
}

/// The acceleration across the line of sight that proportional navigation
/// asks for: the navigation gain times the turn rate of the line of sight
/// times the relative speed along it.
pub open spec fn spec_lateral_demand(
    target: Vector2,
    target_velocity: Vector2,
    sensors: SensorSnapshot,
) -> Fixed {
    let line_of_sight = target.minus(sensors.position).normalized();
    let along = target_velocity.minus(sensors.velocity).dot(line_of_sight);
    fx_mul(fx_mul(N_FACTOR, spec_get_angular_speed(target, target_velocity, sensors)), along)
}

/// The acceleration that proportional navigation commands.
pub open spec fn spec_prop_nav_acceleration(
    target: Vector2,
    target_velocity: Vector2,
    sensors: SensorSnapshot,
) -> Vector2 {
    let line_of_sight = target.minus(sensors.position).normalized();
    let relative_velocity = target_velocity.minus(sensors.velocity);
    let lateral = spec_lateral_demand(target, target_velocity, sensors);
    let limit = sensors.max_forward_acceleration;
    if fx_abs(lateral) > limit {
        relative_velocity.normalized().scaled(limit)
    } else {
        Vector2::new(fx_leg(limit, lateral), fx_neg(lateral)).rotated(line_of_sight)
    }
}

/// Proportional navigation towards a target. The acceleration across the
/// line of sight is the lateral demand; what the forward limit leaves beside
/// it goes along the line of sight, so that the whole has the length of the
/// limit. Where the lateral demand alone is above the limit, the command is
/// the full limit along the relative velocity. The command is never longer
/// than the forward limit.
pub fn calculate_prop_nav_acceleration(
    target: Vector2,
    target_velocity: Vector2,
    sensors: &SensorSnapshot,
) -> (acceleration: Vector2)
    ensures
        acceleration == spec_prop_nav_acceleration(target, target_velocity, *sensors),
        acceleration.norm_squared() <= sensors.max_forward_acceleration
            * sensors.max_forward_acceleration,
        sensors.max_forward_acceleration >= 0 ==> acceleration.length()
            <= sensors.max_forward_acceleration,
{
    let line_of_sight = target.minus(sensors.position).normalized();
    let relative_velocity = target_velocity.minus(sensors.velocity);
    let along = relative_velocity.dot(line_of_sight);
    let lateral = fx_mul(
        fx_mul(N_FACTOR, get_angular_speed(target, target_velocity, sensors)),
        along,
    );
    let limit = sensors.max_forward_acceleration;
    if fx_abs(lateral) > limit {
        let direction = relative_velocity.normalized();
        proof {
            lemma_scaled_is_no_longer(direction, limit);
            if limit >= 0 {
                lemma_length_within(direction.scaled(limit), limit as int);
            }
        }
        direction.scaled(limit)
    } else {
        let in_line_of_sight = Vector2::new(fx_leg(limit, lateral), fx_neg(lateral));
        proof {
            let l = lateral as int;
            let n = fx_neg(lateral) as int;
            if lateral > i64::MIN {
                assert(n * n == l * l) by (nonlinear_arith)
                    requires
                        n == -l,
                ;
                assert(l * l <= limit * limit) by (nonlinear_arith)
                    requires
                        -limit <= l <= limit,
                ;
            } else {
                assert(l * l > limit * limit) by (nonlinear_arith)
                    requires
                        l == -0x8000_0000_0000_0000,
                        limit == 0x7fff_ffff_ffff_ffff,
                ;
            }
            lemma_rotated_is_no_longer(in_line_of_sight, line_of_sight);
            lemma_length_within(in_line_of_sight.rotated(line_of_sight), limit as int);
        }
        in_line_of_sight.rotated(line_of_sight)
    }
}

/// A limit, taken as 0 where it is below 0.
pub open spec fn spec_at_least_zero(limit: Fixed) -> Fixed {
    if limit < 0 {
        0
    } else {
        limit
    }
}

/// `magnitude` with the sign of `sign`.
pub open spec fn spec_with_sign_of(sign: Fixed, magnitude: int) -> Fixed {
    if sign >= 0 {
        magnitude as i64
    } else {
        (-magnitude) as i64
    }
}

/// The magnitude of a coordinate, exactly.
pub open spec fn spec_magnitude(a: Fixed) -> int {
    if a >= 0 {
        a as int
    } else {
        -(a as int)
    }
}

/// The longest vector along `direction`, given in the ship's frame (first
/// axis along the nose, second to its left), that the thrusters can deliver:
/// it reaches the forward or backward limit or the lateral limit, whichever
/// comes first, and passes neither.
pub open spec fn spec_clip_to_envelope(
    direction: Vector2,
    forward: Fixed,
    backward: Fixed,
    lateral: Fixed,
) -> Vector2 {
    let along = spec_magnitude(direction.x);
    let across = spec_magnitude(direction.y);
    let coaxial_limit = spec_at_least_zero(
        if direction.x >= 0 {
            forward
        } else {
            backward
        },
    ) as int;
    let lateral_limit = spec_at_least_zero(lateral) as int;
    if along > 0 && coaxial_limit * across <= lateral_limit * along {
        Vector2 {
            x: spec_with_sign_of(direction.x, coaxial_limit),
            y: spec_with_sign_of(direction.y, coaxial_limit * across / along),
        }
    } else if across > 0 {
        Vector2 {
            x: spec_with_sign_of(direction.x, lateral_limit * along / across),
            y: spec_with_sign_of(direction.y, lateral_limit),
        }
    } else {
        Vector2::zero()
    }
}

/// Clips a direction, given in the ship's frame, to what the thrusters can
/// deliver. The result points the way of `direction` and is the longest such
/// vector inside the envelope: between the backward limit behind and the
/// forward limit ahead, and within the lateral limit to either side.
pub fn clip_to_envelope(direction: Vector2, forward: Fixed, backward: Fixed, lateral: Fixed) -> (thrust:
    Vector2)
    ensures
        thrust == spec_clip_to_envelope(direction, forward, backward, lateral),
        -spec_at_least_zero(backward) <= thrust.x <= spec_at_least_zero(forward),
        -spec_at_least_zero(lateral) <= thrust.y <= spec_at_least_zero(lateral),
        direction.x >= 0 ==> thrust.x >= 0,
        direction.x <= 0 ==> thrust.x <= 0,
        direction.y >= 0 ==> thrust.y >= 0,
        direction.y <= 0 ==> thrust.y <= 0,
        !direction.is_zero() ==> thrust.x == spec_at_least_zero(forward) || thrust.x
            == -spec_at_least_zero(backward) || thrust.y == spec_at_least_zero(lateral)
            || thrust.y == -spec_at_least_zero(lateral),
{
    let along: i128 = if direction.x >= 0 {
        direction.x as i128
    } else {
        -(direction.x as i128)
    };
    let across: i128 = if direction.y >= 0 {
        direction.y as i128
    } else {
        -(direction.y as i128)
    };
    let coaxial: i64 = if direction.x >= 0 {
        forward
    } else {
        backward
    };
    let coaxial_limit: i128 = if coaxial < 0 {
        0
    } else {
        coaxial as i128
    };
    let lateral_limit: i128 = if lateral < 0 {
        0
    } else {
        lateral as i128
    };
    proof {
        lemma_product_bound(
            coaxial_limit as int,
            across as int,
            0x8000_0000_0000_0000,
        );
        lemma_product_bound(
            lateral_limit as int,
            along as int,
            0x8000_0000_0000_0000,
        );
        assert(coaxial_limit * across >= 0) by (nonlinear_arith)
            requires
                coaxial_limit >= 0,
                across >= 0,
        ;
        assert(lateral_limit * along >= 0) by (nonlinear_arith)
            requires
                lateral_limit >= 0,
                along >= 0,
        ;
    }
    let coaxial_reach: i128 = coaxial_limit * across;
    let lateral_reach: i128 = lateral_limit * along;
    if along > 0 && coaxial_reach <= lateral_reach {
        let side: i128 = coaxial_reach / along;
        proof {
            vstd::arithmetic::div_mod::lemma_div_is_ordered(
                coaxial_reach as int,
                lateral_reach as int,
                along as int,
            );
            vstd::arithmetic::div_mod::lemma_div_by_multiple(lateral_limit as int, along as int);
            vstd::arithmetic::div_mod::lemma_div_pos_is_pos(coaxial_reach as int, along as int);
        }
        Vector2 {
            x: if direction.x >= 0 {
                coaxial_limit as i64
            } else {
                (-coaxial_limit) as i64
            },
            y: if direction.y >= 0 {
                side as i64
            } else {
                (-side) as i64
            },
        }
    } else if across > 0 {
        let ahead: i128 = lateral_reach / across;
        proof {
            vstd::arithmetic::div_mod::lemma_div_pos_is_pos(lateral_reach as int, across as int);
            if along > 0 {
                vstd::arithmetic::div_mod::lemma_div_is_ordered(
                    lateral_reach as int,
                    coaxial_reach as int,
                    across as int,
                );
                vstd::arithmetic::div_mod::lemma_div_by_multiple(
                    coaxial_limit as int,
                    across as int,
                );
            } else {
                assert(lateral_reach == 0) by (nonlinear_arith)
                    requires
                        lateral_reach == lateral_limit * along,
                        along == 0,
                ;
            }
        }
        Vector2 {
            x: if direction.x >= 0 {
                ahead as i64
            } else {
                (-ahead) as i64
            },
            y: if direction.y >= 0 {
                lateral_limit as i64
            } else {
                (-lateral_limit) as i64
            },
        }
    } else {
        Vector2::zero()
    }
}

/// The square of the distance from the ship's position to the far corner of
/// the thrusters' envelope: no thrust inside the envelope is longer.
pub open spec fn spec_envelope_reach_squared(forward: Fixed, backward: Fixed, lateral: Fixed) -> int {
    let coaxial = if forward >= backward {
        spec_at_least_zero(forward) as int
    } else {
        spec_at_least_zero(backward) as int
    };
    coaxial * coaxial + spec_at_least_zero(lateral) * spec_at_least_zero(lateral)
}

/// A thrust inside the envelope is no longer than the envelope reaches.
pub proof fn lemma_envelope_reach(thrust: Vector2, forward: Fixed, backward: Fixed, lateral: Fixed)
    requires
        -spec_at_least_zero(backward) <= thrust.x <= spec_at_least_zero(forward),
        -spec_at_least_zero(lateral) <= thrust.y <= spec_at_least_zero(lateral),
    ensures
        thrust.norm_squared() <= spec_envelope_reach_squared(forward, backward, lateral),
{
    let coaxial = if forward >= backward {
        spec_at_least_zero(forward) as int
    } else {
        spec_at_least_zero(backward) as int
    };
    let side = spec_at_least_zero(lateral) as int;
    let x = thrust.x as int;
    let y = thrust.y as int;
    assert(x * x <= coaxial * coaxial) by (nonlinear_arith)
        requires
            -coaxial <= x <= coaxial,
    ;
    assert(y * y <= side * side) by (nonlinear_arith)
        requires
            -side <= y <= side,
    ;
}

/// The strongest acceleration along `direction`, given in the world's frame,
/// that the thrusters can deliver.
pub open spec fn spec_get_max_acceleration(direction: Vector2, sensors: SensorSnapshot) -> Vector2 {
    spec_clip_to_envelope(
        direction.unrotated(sensors.heading_direction),
        sensors.max_forward_acceleration,
        sensors.max_backward_acceleration,
        sensors.max_lateral_acceleration,
    ).rotated(sensors.heading_direction)
}

/// The strongest acceleration along `direction` that the thrusters can
/// deliver: the direction is taken into the ship's frame, clipped to the
/// envelope of forward, backward and lateral limits, and taken back.
pub fn get_max_acceleration(direction: Vector2, sensors: &SensorSnapshot) -> (acceleration:
    Vector2)
    ensures
        acceleration == spec_get_max_acceleration(direction, *sensors),
        sensors.heading_direction.norm_squared() <= ONE * ONE ==> acceleration.norm_squared()
            <= spec_clip_to_envelope(
            direction.unrotated(sensors.heading_direction),
            sensors.max_forward_acceleration,
            sensors.max_backward_acceleration,
            sensors.max_lateral_acceleration,
        ).norm_squared(),
        sensors.heading_direction.norm_squared() <= ONE * ONE ==> acceleration.norm_squared()
            <= spec_envelope_reach_squared(
            sensors.max_forward_acceleration,
            sensors.max_backward_acceleration,
            sensors.max_lateral_acceleration,
        ),
{
    let in_ship_frame = clip_to_envelope(
        direction.unrotated(sensors.heading_direction),
        sensors.max_forward_acceleration,
        sensors.max_backward_acceleration,
        sensors.max_lateral_acceleration,
    );
    proof {
        if sensors.heading_direction.norm_squared() <= ONE * ONE {
            lemma_rotated_is_no_longer(in_ship_frame, sensors.heading_direction);
            lemma_envelope_reach(
                in_ship_frame,
                sensors.max_forward_acceleration,
                sensors.max_backward_acceleration,
                sensors.max_lateral_acceleration,
            );
        }
    }
    in_ship_frame.rotated(sensors.heading_direction)
}

/// The share of the closing thrust: the distance over `MAX_FORWARD_DIST`, at
/// most 1.
pub open spec fn spec_forward_share(distance: Fixed) -> Fixed {
    let share = fx_div(distance, MAX_FORWARD_DIST);
    if share < ONE {
        share
    } else {
        ONE
    }
}

/// The share of the sideways thrust: by how much the distance is short of
/// `MIN_LATERAL_DIST`, over `MIN_LATERAL_DIST`.
pub open spec fn spec_lateral_share(distance: Fixed) -> Fixed {
    let short = fx_sub(MIN_LATERAL_DIST, distance);
    fx_div(
        if short > 0 {
            short
        } else {
            0
        },
        MIN_LATERAL_DIST,
    )
}

/// The share of the closing thrust at the given distance: it grows with the
/// distance up to `MAX_FORWARD_DIST` and is 1 from there on.
#[verifier::when_used_as_spec(spec_forward_share)]
pub fn forward_share(distance: Fixed) -> (share: Fixed)
    ensures
        share == spec_forward_share(distance),
        share <= ONE,
        distance >= 0 ==> 0 <= share,
        distance >= MAX_FORWARD_DIST ==> share == ONE,
{
    proof {
        lemma_trunc_div_shrinks(distance * ONE, MAX_FORWARD_DIST as int);
        if distance >= MAX_FORWARD_DIST {
            vstd::arithmetic::div_mod::lemma_div_is_ordered(
                MAX_FORWARD_DIST * ONE,
                distance * ONE,
                MAX_FORWARD_DIST as int,
            );
        }
    }
    let share = fx_div(distance, MAX_FORWARD_DIST);
    if share < ONE {
        share
    } else {
        ONE
    }
}

/// The share of the sideways thrust at the given distance: 0 from
/// `MIN_LATERAL_DIST` on, and growing to 1 as the distance shrinks to 0.
#[verifier::when_used_as_spec(spec_lateral_share)]
pub fn lateral_share(distance: Fixed) -> (share: Fixed)
    ensures
        share == spec_lateral_share(distance),
        0 <= share,
        distance >= 0 ==> share <= ONE,
        distance >= MIN_LATERAL_DIST ==> share == 0,
        distance == 0 ==> share == ONE,
{
    let short = fx_sub(MIN_LATERAL_DIST, distance);
    let wanted = if short > 0 {
        short
    } else {
        0
    };
    proof {
        lemma_trunc_div_shrinks(wanted * ONE, MIN_LATERAL_DIST as int);
        if distance >= 0 {
            vstd::arithmetic::div_mod::lemma_div_is_ordered(
                wanted * ONE,
                MIN_LATERAL_DIST * ONE,
                MIN_LATERAL_DIST as int,
            );
        }
    }
    fx_div(wanted, MIN_LATERAL_DIST)
}

/// The direction in which a dogfighting ship wants to thrust.
pub open spec fn spec_dogfight_direction(
    target: Vector2,
    target_angular_speed: Fixed,
    sensors: SensorSnapshot,
) -> Vector2 {
    let relative_position = target.minus(sensors.position);
    let distance = relative_position.length();
    let line_of_sight = relative_position.normalized();
    let sideways = if target_angular_speed >= 0 {
        normal_vector(line_of_sight).negated()
    } else {
        normal_vector(line_of_sight)
    };
    line_of_sight.scaled(forward_share(distance)).plus(sideways.scaled(lateral_share(distance)))
}

/// The acceleration of a dogfighting ship.
pub open spec fn spec_dogfight_acceleration(
    target: Vector2,
    target_bearing: Fixed,
    target_angular_speed: Fixed,
    max_cone_angle: Fixed,
    sensors: SensorSnapshot,
) -> Vector2 {
    if fx_abs(angle_diff(sensors.heading, target_bearing)) > max_cone_angle {
        Vector2::zero()
    } else {
        spec_get_max_acceleration(
            spec_dogfight_direction(target, target_angular_speed, sensors),
            sensors,
        )
    }
}

/// The acceleration of a ship that fights at close range. It closes in along
/// the line of sight, less and less below `MAX_FORWARD_DIST`, and below
/// `MIN_LATERAL_DIST` it also moves sideways, to the side against which the
/// target moves round the ship (clockwise for a target that does not move
/// round it). The blend of the two gives the direction; the thrusters'
/// envelope gives the length. A target whose bearing is further off the nose
/// than `max_cone_angle` gets no acceleration at all.
pub fn calculate_dogfight_acceleration(
    target: Vector2,
    target_bearing: Fixed,
    target_angular_speed: Fixed,
    max_cone_angle: Fixed,
    sensors: &SensorSnapshot,
) -> (acceleration: Vector2)
    ensures
        acceleration == spec_dogfight_acceleration(
            target,
            target_bearing,
            target_angular_speed,
            max_cone_angle,
            *sensors,
        ),
        fx_abs(angle_diff(sensors.heading, target_bearing)) > max_cone_angle ==> acceleration
            == Vector2::zero(),
        sensors.heading_direction.norm_squared() <= ONE * ONE ==> acceleration.norm_squared()
            <= spec_envelope_reach_squared(
            sensors.max_forward_acceleration,
            sensors.max_backward_acceleration,
            sensors.max_lateral_acceleration,
        ),
{
    if fx_abs(angle_diff(sensors.heading, target_bearing)) > max_cone_angle {
        proof {
            lemma_envelope_reach(
                Vector2::zero(),
                sensors.max_forward_acceleration,
                sensors.max_backward_acceleration,
                sensors.max_lateral_acceleration,
            );
        }
        return Vector2::zero();
    }
    let relative_position = target.minus(sensors.position);
    let distance = relative_position.length();
    let line_of_sight = relative_position.normalized();
    let sideways = if target_angular_speed >= 0 {
        normal_vector(line_of_sight).negated()
    } else {
        normal_vector(line_of_sight)
    };
    let direction = line_of_sight.scaled(forward_share(distance)).plus(
        sideways.scaled(lateral_share(distance)),
    );
    get_max_acceleration(direction, sensors)
}

} // verus!
