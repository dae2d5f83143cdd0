//! The ballistic lead solver: where to aim a projectile of finite speed so
//! that it meets a target that moves and accelerates.

use vstd::prelude::*;
use crate::fixed::{
    fx_abs, fx_add, fx_div, fx_half, fx_mul, int_sqrt, lemma_int_sqrt, lemma_int_sqrt_monotonic,
    lemma_int_sqrt_square, lemma_products_are_close, lemma_quotients_are_close,
    lemma_square_of_product, lemma_trunc_div_shrinks, spec_fx_abs, spec_fx_add, spec_fx_div,
    spec_fx_half, spec_fx_mul, trunc_div, Fixed, ONE,
};
use crate::sensor::SensorSnapshot;
use crate::settings::{MAX_PASSES, PREDICTION_ACCURACY_FACTOR};
use crate::vector::{lemma_coordinate_within_length, lemma_lengths_are_close, Vector2};

verus! {

/// When the solver stops.
#[derive(Clone, Copy, Debug, PartialEq, Eq, Structural)]
pub struct SolverConfig {
    /// The solver makes at most this many passes.
    pub max_iterations: u32,
    /// The solver stops once two successive estimates are closer than this
    /// factor times the target's angular size; 0 makes it run all its passes.
    pub tolerance: Fixed,
}

impl SolverConfig {
    /// A solver that makes exactly `passes` passes.
    pub fn fixed_passes(passes: u32) -> (config: SolverConfig)
        ensures
            config == (SolverConfig { max_iterations: passes, tolerance: 0 }),
    {
        SolverConfig { max_iterations: passes, tolerance: 0 }
    }

    /// A solver that stops at the tolerance given, and after `max_iterations`
    /// passes at the latest.
    pub fn within_tolerance(max_iterations: u32, tolerance: Fixed) -> (config: SolverConfig)
        ensures
            config == (SolverConfig { max_iterations, tolerance }),
    {
        SolverConfig { max_iterations, tolerance }
    }

    /// The solver of the fleet.
    pub open spec fn spec_standard() -> SolverConfig {
        SolverConfig { max_iterations: MAX_PASSES, tolerance: PREDICTION_ACCURACY_FACTOR }
    }

    /// The solver of the fleet: `MAX_PASSES` passes at most, stopping at
    /// `PREDICTION_ACCURACY_FACTOR`.
    #[verifier::when_used_as_spec(spec_standard)]
    pub fn standard() -> (config: SolverConfig)
        ensures
            config == SolverConfig::spec_standard(),
    {
        SolverConfig { max_iterations: MAX_PASSES, tolerance: PREDICTION_ACCURACY_FACTOR }
    }
}

/// The angle under which the ship sees a target of the given size at the
/// given place, in radians: the size over the distance.
pub open spec fn spec_get_angular_target_size(
    enemy_size: Fixed,
    target: Vector2,
    sensors: SensorSnapshot,
) -> Fixed {
    fx_div(enemy_size, target.distance(sensors.position))
}

/// The angle under which the ship sees a target of the given size at the
/// given place.
pub fn get_angular_target_size(enemy_size: Fixed, target: Vector2, sensors: &SensorSnapshot) -> (size:
    Fixed)
    ensures
        size == spec_get_angular_target_size(enemy_size, target, *sensors),
{
    fx_div(enemy_size, target.distance(sensors.position))
}

/// The speed at which a projectile leaves along `relative_position`: the
/// muzzle speed plus what the ship's own velocity adds along that line.
pub open spec fn spec_bullet_speed(
    relative_position: Vector2,
    bullet_speed: Fixed,
    sensors: SensorSnapshot,
) -> Fixed {
    fx_add(bullet_speed, sensors.velocity.dot(relative_position.normalized()))
}

/// The time a projectile needs to `relative_position`, where it gets there.
pub open spec fn spec_get_bullet_time(
    relative_position: Vector2,
    bullet_speed: Fixed,
    sensors: SensorSnapshot,
) -> Option<Fixed> {
    spec_time_to_encounter(
        relative_position,
        spec_bullet_speed(relative_position, bullet_speed, sensors),
    )
}

/// The speed at which a projectile leaves along `relative_position`: the
/// muzzle speed plus what the ship's own velocity adds along that line.
pub fn get_bullet_speed(relative_position: Vector2, bullet_speed: Fixed, sensors: &SensorSnapshot) -> (speed:
    Fixed)
    ensures
        speed == spec_bullet_speed(relative_position, bullet_speed, *sensors),
{
    fx_add(bullet_speed, sensors.velocity.dot(relative_position.normalized()))
}

/// The time to cover `relative_position` at `speed`, where the speed is above
/// 0.
pub open spec fn spec_time_to_encounter(relative_position: Vector2, speed: Fixed) -> Option<Fixed> {
    if speed <= 0 {
        None
    } else {
        Some(fx_div(relative_position.length(), speed))
    }
}

/// The time to cover `relative_position` at `speed`: the distance over the
/// speed. `None` where the speed is 0 or below.
pub fn time_to_encounter(relative_position: Vector2, speed: Fixed) -> (time: Option<Fixed>)
    ensures
        time == spec_time_to_encounter(relative_position, speed),
        time is Some <==> speed > 0,
        time matches Some(t) ==> t >= 0,
{
    if speed <= 0 {
        None
    } else {
        let distance = relative_position.length();
        proof {
            lemma_trunc_div_shrinks(distance * ONE, speed as int);
            assert(distance * ONE >= 0) by (nonlinear_arith)
                requires
                    distance >= 0,
            ;
            assert(trunc_div(distance * ONE, speed as int) >= 0) by (nonlinear_arith)
                requires
                    0 <= trunc_div(distance * ONE, speed as int) * speed,
                    speed > 0,
            ;
        }
        Some(fx_div(distance, speed))
    }
}

/// The time a projectile needs to cover `relative_position`: the distance
/// over the projectile's speed along that line, which is the muzzle speed
/// plus the ship's own velocity along it. `None` where that speed is 0 or
/// below: the projectile never gets there.
pub fn get_bullet_time(relative_position: Vector2, bullet_speed: Fixed, sensors: &SensorSnapshot) -> (time:
    Option<Fixed>)
    ensures
        time == spec_get_bullet_time(relative_position, bullet_speed, *sensors),
        time is Some <==> spec_bullet_speed(relative_position, bullet_speed, *sensors) > 0,
        time matches Some(t) ==> t >= 0,
{
    time_to_encounter(relative_position, get_bullet_speed(relative_position, bullet_speed, sensors))
}

/// Where a target that starts at `target` with the given velocity and a
/// constant acceleration is after `time`.
pub open spec fn spec_project(
    target: Vector2,
    target_velocity: Vector2,
    target_acceleration: Vector2,
    time: Fixed,
) -> Vector2 {
    target.plus(target_velocity.scaled(time)).plus(
        target_acceleration.scaled(fx_half(fx_mul(time, time))),
    )
}

/// Where a target that starts at `target` with the given velocity and a
/// constant acceleration is after `time`: the start, plus the velocity times
/// the time, plus half the acceleration times the square of the time.
pub fn project(
    target: Vector2,
    target_velocity: Vector2,
    target_acceleration: Vector2,
    time: Fixed,
) -> (place: Vector2)
    ensures
        place == spec_project(target, target_velocity, target_acceleration, time),
        target_velocity.is_zero() && target_acceleration.is_zero() ==> place == target,
{
    target.plus(target_velocity.scaled(time)).plus(
        target_acceleration.scaled(fx_half(fx_mul(time, time))),
    )
}

/// What a firing solution is asked for: the target's motion, the projectile
/// and the place it is fired from.
#[derive(Clone, Copy, Debug, PartialEq, Eq, Structural)]
pub struct Shot {
    pub target: Vector2,
    pub target_velocity: Vector2,
    pub target_acceleration: Vector2,
    pub bullet_speed: Fixed,
    pub target_size: Fixed,
    pub origin: Vector2,
}

/// The solver's next estimate after `projected`, where a projectile gets to
/// `projected` at all: where the target is when it gets there.
pub open spec fn spec_refine(shot: Shot, sensors: SensorSnapshot, projected: Vector2) -> Option<
    Vector2,
> {
    match spec_get_bullet_time(projected.minus(shot.origin), shot.bullet_speed, sensors) {
        Some(time) => Some(
            spec_project(shot.target, shot.target_velocity, shot.target_acceleration, time),
        ),
        None => None,
    }
}

/// How close two successive estimates have to be for the solver to stop at
/// `place`: the tolerance times the angular size of the target there.
pub open spec fn spec_tolerance_at(
    shot: Shot,
    sensors: SensorSnapshot,
    tolerance: Fixed,
    place: Vector2,
) -> Fixed {
    fx_mul(tolerance, spec_get_angular_target_size(shot.target_size, place, sensors))
}

/// Two successive estimates are close enough: closer than the tolerance
/// times the angular size of the target at the later one.
pub open spec fn spec_close_enough(
    shot: Shot,
    sensors: SensorSnapshot,
    tolerance: Fixed,
    projected: Vector2,
    next: Vector2,
) -> bool {
    next.distance(projected) < spec_tolerance_at(shot, sensors, tolerance, next)
}

/// The solver's estimate after at most `passes` more passes from
/// `projected`. A pass refines the estimate. The solver stops before a pass
/// where no projectile gets to the estimate, and after a pass whose result
/// is close enough to the estimate before.
pub open spec fn spec_solve(
    shot: Shot,
    sensors: SensorSnapshot,
    tolerance: Fixed,
    projected: Vector2,
    passes: nat,
) -> Vector2
    decreases passes,
{
    if passes == 0 {
        projected
    } else {
        match spec_refine(shot, sensors, projected) {
            None => projected,
            Some(next) => {
                if spec_close_enough(shot, sensors, tolerance, projected, next) {
                    next
                } else {
                    spec_solve(shot, sensors, tolerance, next, (passes - 1) as nat)
                }
            },
        }
    }
}

/// The lead point: the solver's last estimate, less what the ship itself
/// moves while the projectile flies there.
pub open spec fn spec_lead(shot: Shot, sensors: SensorSnapshot, config: SolverConfig) -> Vector2 {
    let projected = spec_solve(
        shot,
        sensors,
        config.tolerance,
        shot.target,
        config.max_iterations as nat,
    );
    let time = match spec_get_bullet_time(
        projected.minus(shot.origin),
        shot.bullet_speed,
        sensors,
    ) {
        Some(time) => time,
        None => 0,
    };
    projected.minus(sensors.velocity.scaled(time))
}

/// The solver does not move a target that is at rest.
pub proof fn lemma_solve_stationary_target(
    shot: Shot,
    sensors: SensorSnapshot,
    tolerance: Fixed,
    passes: nat,
)
    requires
        shot.target_velocity.is_zero(),
        shot.target_acceleration.is_zero(),
    ensures
        spec_solve(shot, sensors, tolerance, shot.target, passes) == shot.target,
    decreases passes,
{
    if passes > 0 {
        lemma_solve_stationary_target(shot, sensors, tolerance, (passes - 1) as nat);
    }
}

/// The solver stops because two successive estimates are close enough, not
/// for want of passes or of a solution.
pub open spec fn spec_converges(
    shot: Shot,
    sensors: SensorSnapshot,
    tolerance: Fixed,
    projected: Vector2,
    passes: nat,
) -> bool
    decreases passes,
{
    if passes == 0 {
        false
    } else {
        match spec_refine(shot, sensors, projected) {
            None => false,
            Some(next) => {
                if spec_close_enough(shot, sensors, tolerance, projected, next) {
                    true
                } else {
                    spec_converges(shot, sensors, tolerance, next, (passes - 1) as nat)
                }
            },
        }
    }
}

/// Where the solver stops because its estimates are close enough, its last
/// estimate is consistent up to the tolerance: it is where the target is
/// when a projectile gets to a point that is close enough to it.
pub proof fn lemma_converged_estimate_is_consistent(
    shot: Shot,
    sensors: SensorSnapshot,
    tolerance: Fixed,
    projected: Vector2,
    passes: nat,
)
    requires
        spec_converges(shot, sensors, tolerance, projected, passes),
    ensures
        exists|near: Vector2|
            spec_refine(shot, sensors, near) == Some(
                spec_solve(shot, sensors, tolerance, projected, passes),
            ) && #[trigger] spec_close_enough(
                shot,
                sensors,
                tolerance,
                near,
                spec_solve(shot, sensors, tolerance, projected, passes),
            ),
    decreases passes,
{
    let next = spec_refine(shot, sensors, projected)->0;
    if spec_close_enough(shot, sensors, tolerance, projected, next) {
        assert(spec_close_enough(
            shot,
            sensors,
            tolerance,
            projected,
            spec_solve(shot, sensors, tolerance, projected, passes),
        ));
    } else {
        lemma_converged_estimate_is_consistent(
            shot,
            sensors,
            tolerance,
            next,
            (passes - 1) as nat,
        );
        let estimate = spec_solve(shot, sensors, tolerance, next, (passes - 1) as nat);
        assert(spec_solve(shot, sensors, tolerance, projected, passes) == estimate);
        let near = choose|near: Vector2|
            spec_refine(shot, sensors, near) == Some(estimate) && #[trigger] spec_close_enough(
                shot,
                sensors,
                tolerance,
                near,
                estimate,
            );
        assert(spec_close_enough(shot, sensors, tolerance, near, estimate));
    }
}

/// A target of constant velocity, shot at from a ship at rest: where the
/// solver stops because its estimates are close enough, the lead point is
/// the target's place plus its velocity times a flight time, that of a
/// projectile at muzzle speed to a point that is close enough to the lead
/// point.
pub proof fn lemma_lead_of_steady_target(shot: Shot, sensors: SensorSnapshot, config: SolverConfig)
    requires
        shot.target_acceleration.is_zero(),
        sensors.velocity.is_zero(),
        spec_converges(
            shot,
            sensors,
            config.tolerance,
            shot.target,
            config.max_iterations as nat,
        ),
    ensures
        exists|near: Vector2| #[trigger]
            spec_close_enough(
                shot,
                sensors,
                config.tolerance,
                near,
                spec_lead(shot, sensors, config),
            ) && spec_lead(shot, sensors, config) == shot.target.plus(
                shot.target_velocity.scaled(
                    fx_div(near.minus(shot.origin).length(), shot.bullet_speed),
                ),
            ),
{
    let estimate = spec_solve(
        shot,
        sensors,
        config.tolerance,
        shot.target,
        config.max_iterations as nat,
    );
    lemma_converged_estimate_is_consistent(
        shot,
        sensors,
        config.tolerance,
        shot.target,
        config.max_iterations as nat,
    );
    let near = choose|near: Vector2|
        spec_refine(shot, sensors, near) == Some(estimate) && #[trigger] spec_close_enough(
            shot,
            sensors,
            config.tolerance,
            near,
            estimate,
        );
    lemma_ship_at_rest(shot, sensors, near.minus(shot.origin));
    lemma_ship_at_rest(shot, sensors, estimate.minus(shot.origin));
    assert(spec_lead(shot, sensors, config) == estimate);
    assert(spec_close_enough(shot, sensors, config.tolerance, near, spec_lead(shot, sensors, config)));
}

/// A ship at rest adds nothing to the speed of its projectiles and does not
/// move while they fly.
pub proof fn lemma_ship_at_rest(shot: Shot, sensors: SensorSnapshot, relative_position: Vector2)
    requires
        sensors.velocity.is_zero(),
    ensures
        spec_bullet_speed(relative_position, shot.bullet_speed, sensors) == shot.bullet_speed,
        forall|time: Fixed| #[trigger] sensors.velocity.scaled(time) == Vector2::zero(),
{
    let direction = relative_position.normalized();
    assert(sensors.velocity.x * direction.x + sensors.velocity.y * direction.y == 0)
        by (nonlinear_arith)
        requires
            sensors.velocity.x == 0,
            sensors.velocity.y == 0,
    ;
    assert forall|time: Fixed| #[trigger] sensors.velocity.scaled(time) == Vector2::zero() by {
        assert(sensors.velocity.x * time == 0 && sensors.velocity.y * time == 0)
            by (nonlinear_arith)
            requires
                sensors.velocity.x == 0,
                sensors.velocity.y == 0,
        ;
    }
}

/// One coordinate of a steady target's travel during two flights whose
/// lengths differ by `spread` at most: the two travels differ by no more
/// than the spread, plus the target's travel in a millionth of a second,
/// plus a millionth. `speed` is the projectile's speed, `velocity` the
/// coordinate of the target's velocity, which is below the speed, and
/// `near` and `far` the lengths of the flights.
pub proof fn lemma_travels_are_close(velocity: int, speed: int, near: int, far: int, spread: int)
    requires
        speed > 0,
        -speed < velocity < speed,
        0 <= near,
        0 <= far,
        near - far <= spread,
        far - near <= spread,
    ensures
        ({
            let near_travel = trunc_div(velocity * ((near * ONE) / speed), ONE as int);
            let far_travel = trunc_div(velocity * ((far * ONE) / speed), ONE as int);
            let bound = spread + (if velocity >= 0 {
                velocity
            } else {
                -velocity
            }) / (ONE as int) + 1;
            &&& -bound <= near_travel - far_travel <= bound
            &&& -near <= near_travel <= near
            &&& -far <= far_travel <= far
            &&& 0 <= (near * ONE) / speed <= near * ONE
            &&& 0 <= (far * ONE) / speed <= far * ONE
        }),
{
    let magnitude = if velocity >= 0 {
        velocity
    } else {
        -velocity
    };
    let near_time = (near * ONE) / speed;
    let far_time = (far * ONE) / speed;
    assert(spread >= 0);
    assert(near * ONE >= 0 && far * ONE >= 0 && spread * ONE >= 0 && near * ONE - far * ONE
        <= spread * ONE && far * ONE - near * ONE <= spread * ONE) by (nonlinear_arith)
        requires
            0 <= near,
            0 <= far,
            0 <= spread,
            near - far <= spread,
            far - near <= spread,
            ONE == 1_000_000,
    ;
    lemma_quotients_are_close(near * ONE, far * ONE, spread * ONE, speed);
    let spread_time = (spread * ONE) / speed;
    vstd::arithmetic::div_mod::lemma_fundamental_div_mod(near * ONE, speed);
    vstd::arithmetic::div_mod::lemma_mod_bound(near * ONE, speed);
    vstd::arithmetic::div_mod::lemma_fundamental_div_mod(far * ONE, speed);
    vstd::arithmetic::div_mod::lemma_mod_bound(far * ONE, speed);
    vstd::arithmetic::div_mod::lemma_fundamental_div_mod(spread * ONE, speed);
    vstd::arithmetic::div_mod::lemma_mod_bound(spread * ONE, speed);
    vstd::arithmetic::div_mod::lemma_div_pos_is_pos(near * ONE, speed);
    vstd::arithmetic::div_mod::lemma_div_pos_is_pos(far * ONE, speed);
    vstd::arithmetic::div_mod::lemma_div_pos_is_pos(spread * ONE, speed);
    // a time, times a velocity below the speed, is a travel below the flight
    assert(0 <= magnitude * near_time <= near * ONE && near_time <= near * ONE)
        by (nonlinear_arith)
        requires
            near * ONE == speed * near_time + (near * ONE) % speed,
            0 <= (near * ONE) % speed,
            0 <= near_time,
            0 <= magnitude < speed,
    ;
    assert(0 <= magnitude * far_time <= far * ONE && far_time <= far * ONE) by (nonlinear_arith)
        requires
            far * ONE == speed * far_time + (far * ONE) % speed,
            0 <= (far * ONE) % speed,
            0 <= far_time,
            0 <= magnitude < speed,
    ;
    assert(0 <= magnitude * spread_time <= spread * ONE) by (nonlinear_arith)
        requires
            spread * ONE == speed * spread_time + (spread * ONE) % speed,
            0 <= (spread * ONE) % speed,
            0 <= spread_time,
            0 <= magnitude < speed,
    ;
    lemma_products_are_close(velocity, near_time, far_time, spread_time + 1);
    assert(magnitude * (spread_time + 1) == magnitude * spread_time + magnitude)
        by (nonlinear_arith);
    vstd::arithmetic::div_mod::lemma_div_is_ordered(
        magnitude * (spread_time + 1),
        spread * ONE + magnitude,
        ONE as int,
    );
    assert((spread * ONE + magnitude) / (ONE as int) == spread + magnitude / (ONE as int)) by {
        vstd::arithmetic::div_mod::lemma_div_multiples_vanish_fancy(
            spread,
            magnitude % (ONE as int),
            ONE as int,
        );
        vstd::arithmetic::div_mod::lemma_fundamental_div_mod(magnitude, ONE as int);
        vstd::arithmetic::div_mod::lemma_fundamental_div_mod(spread * ONE + magnitude, ONE as int);
        vstd::arithmetic::div_mod::lemma_mod_bound(magnitude, ONE as int);
        vstd::arithmetic::div_mod::lemma_mod_bound(spread * ONE + magnitude, ONE as int);
    }
    // the travels themselves
    lemma_trunc_div_shrinks(velocity * near_time, ONE as int);
    lemma_trunc_div_shrinks(velocity * far_time, ONE as int);
    assert(velocity * near_time == magnitude * near_time || velocity * near_time == -(magnitude
        * near_time)) by (nonlinear_arith)
        requires
            magnitude == velocity || magnitude == -velocity,
    ;
    assert(velocity * far_time == magnitude * far_time || velocity * far_time == -(magnitude
        * far_time)) by (nonlinear_arith)
        requires
            magnitude == velocity || magnitude == -velocity,
    ;
}

/// Both coordinates are within a million metres of 0.
pub open spec fn spec_in_range(place: Vector2) -> bool {
    &&& -1_000_000_000_000 <= place.x <= 1_000_000_000_000
    &&& -1_000_000_000_000 <= place.y <= 1_000_000_000_000
}

/// A target of constant velocity, slower than the projectile, shot at from
/// a ship at rest, with everything within a million metres: where the solver
/// stops because its estimates are close enough, the lead point is where the
/// target is when the projectile gets to the lead point, in each coordinate
/// up to the tolerance at the lead point, plus the target's travel in a
/// millionth of a second, plus a millionth.
pub proof fn lemma_steady_lead_meets_target(
    shot: Shot,
    sensors: SensorSnapshot,
    config: SolverConfig,
)
    requires
        shot.target_acceleration.is_zero(),
        sensors.velocity.is_zero(),
        shot.target_velocity.norm_squared() < shot.bullet_speed * shot.bullet_speed,
        spec_converges(
            shot,
            sensors,
            config.tolerance,
            shot.target,
            config.max_iterations as nat,
        ),
        spec_in_range(shot.target),
        spec_in_range(shot.origin),
        spec_in_range(spec_lead(shot, sensors, config)),
        spec_tolerance_at(shot, sensors, config.tolerance, spec_lead(shot, sensors, config))
            <= 1_000_000_000_000,
    ensures
        ({
            let point = spec_lead(shot, sensors, config);
            let time = fx_div(point.minus(shot.origin).length(), shot.bullet_speed);
            let residual = point.minus(shot.target).minus(shot.target_velocity.scaled(time));
            let tolerance = spec_tolerance_at(shot, sensors, config.tolerance, point);
            &&& spec_get_bullet_time(point.minus(shot.origin), shot.bullet_speed, sensors)
                == Some(time)
            &&& -(tolerance + fx_abs(shot.target_velocity.x) / ONE + 1) <= residual.x <= tolerance
                + fx_abs(shot.target_velocity.x) / ONE + 1
            &&& -(tolerance + fx_abs(shot.target_velocity.y) / ONE + 1) <= residual.y <= tolerance
                + fx_abs(shot.target_velocity.y) / ONE + 1
        }),
{
    let point = spec_lead(shot, sensors, config);
    let velocity = shot.target_velocity;
    let speed = shot.bullet_speed as int;
    let tolerance = spec_tolerance_at(shot, sensors, config.tolerance, point) as int;
    lemma_lead_of_steady_target(shot, sensors, config);
    let near = choose|near: Vector2| #[trigger]
        spec_close_enough(shot, sensors, config.tolerance, near, point) && point
            == shot.target.plus(
            velocity.scaled(fx_div(near.minus(shot.origin).length(), shot.bullet_speed)),
        );
    // the projectile has a speed, and the target is slower in each coordinate
    lemma_ship_at_rest(shot, sensors, shot.target.minus(shot.origin));
    lemma_ship_at_rest(shot, sensors, point.minus(shot.origin));
    assert(speed > 0);
    let vx = velocity.x as int;
    let vy = velocity.y as int;
    assert(-speed < vx < speed && -speed < vy < speed) by (nonlinear_arith)
        requires
            vx * vx + vy * vy < speed * speed,
            speed > 0,
    ;
    // the two estimates are close in each coordinate
    let gap = point.minus(near);
    let gx = gap.x as int;
    let gy = gap.y as int;
    lemma_square_of_product(gx, 1);
    lemma_square_of_product(gy, 1);
    lemma_int_sqrt(gx * gx + gy * gy);
    lemma_coordinate_within_length(gx, gy);
    lemma_coordinate_within_length(gy, gx);
    assert(gy * gy + gx * gx == gx * gx + gy * gy);
    let gap_length = int_sqrt(gx * gx + gy * gy);
    assert(gap_length < tolerance);
    assert(gx == point.x - near.x && gy == point.y - near.y);
    // the flights to the two estimates
    let to_near = near.minus(shot.origin);
    let to_point = point.minus(shot.origin);
    let ax = to_near.x as int;
    let ay = to_near.y as int;
    let bx = to_point.x as int;
    let by = to_point.y as int;
    assert(ax == near.x - shot.origin.x && ay == near.y - shot.origin.y);
    assert(bx == point.x - shot.origin.x && by == point.y - shot.origin.y);
    let limit = 5_000_000_000_000int;
    assert(ax * ax + ay * ay <= limit * limit && bx * bx + by * by <= limit * limit && 0 <= ax
        * ax + ay * ay && 0 <= bx * bx + by * by) by (nonlinear_arith)
        requires
            -3_000_000_000_000 <= ax <= 3_000_000_000_000,
            -3_000_000_000_000 <= ay <= 3_000_000_000_000,
            -3_000_000_000_000 <= bx <= 3_000_000_000_000,
            -3_000_000_000_000 <= by <= 3_000_000_000_000,
            limit == 5_000_000_000_000,
    ;
    lemma_int_sqrt_square(limit);
    lemma_int_sqrt_monotonic(ax * ax + ay * ay, limit * limit);
    lemma_int_sqrt_monotonic(bx * bx + by * by, limit * limit);
    lemma_int_sqrt(ax * ax + ay * ay);
    lemma_int_sqrt(bx * bx + by * by);
    let near_flight = int_sqrt(ax * ax + ay * ay);
    let far_flight = int_sqrt(bx * bx + by * by);
    assert(to_near.length() == near_flight && to_point.length() == far_flight);
    lemma_lengths_are_close(ax, ay, bx, by);
    lemma_lengths_are_close(bx, by, ax, ay);
    assert((ax - bx) * (ax - bx) == gx * gx && (ay - by) * (ay - by) == gy * gy)
        by (nonlinear_arith)
        requires
            ax - bx == -gx,
            ay - by == -gy,
    ;
    assert(bx - ax == gx && by - ay == gy);
    assert(near_flight - far_flight <= tolerance && far_flight - near_flight <= tolerance);
    // the target's travels during the two flights
    lemma_travels_are_close(vx, speed, near_flight, far_flight, tolerance);
    lemma_travels_are_close(vy, speed, near_flight, far_flight, tolerance);
    let near_time = (near_flight * ONE) / speed;
    let far_time = (far_flight * ONE) / speed;
    assert(near_flight * ONE <= 5_000_000_000_000_000_000 && far_flight * ONE
        <= 5_000_000_000_000_000_000 && 0 <= near_flight * ONE && 0 <= far_flight * ONE);
    assert(fx_div(to_near.length(), shot.bullet_speed) == near_time);
    assert(fx_div(to_point.length(), shot.bullet_speed) == far_time);
}

/// Solves for the lead point of a shot.
pub fn solve(shot: &Shot, sensors: &SensorSnapshot, config: &SolverConfig) -> (point: Vector2)
    ensures
        point == spec_lead(*shot, *sensors, *config),
        shot.target_velocity.is_zero() && shot.target_acceleration.is_zero()
            && sensors.velocity.is_zero() ==> point == shot.target,
{
    let mut projected = shot.target;
    let mut passes: u32 = config.max_iterations;
    while passes > 0
        invariant
            spec_solve(*shot, *sensors, config.tolerance, projected, passes as nat) == spec_solve(
                *shot,
                *sensors,
                config.tolerance,
                shot.target,
                config.max_iterations as nat,
            ),
        decreases passes,
    {
        match get_bullet_time(projected.minus(shot.origin), shot.bullet_speed, sensors) {
            None => {
                passes = 0;
            },
            Some(time) => {
                let next = project(
                    shot.target,
                    shot.target_velocity,
                    shot.target_acceleration,
                    time,
                );
                let close_enough = next.distance(projected) < fx_mul(
                    config.tolerance,
                    get_angular_target_size(shot.target_size, next, sensors),
                );
                projected = next;
                if close_enough {
                    passes = 0;
                } else {
                    passes = passes - 1;
                }
            },
        }
    }
    let time = match get_bullet_time(projected.minus(shot.origin), shot.bullet_speed, sensors) {
        Some(time) => time,
        None => 0,
    };
    proof {
        if shot.target_velocity.is_zero() && shot.target_acceleration.is_zero() {
            lemma_solve_stationary_target(
                *shot,
                *sensors,
                config.tolerance,
                config.max_iterations as nat,
            );
        }
    }
    projected.minus(sensors.velocity.scaled(time))
}

/// The lead point for a projectile fired from `origin_position`: where to
/// aim now so that the projectile, which flies straight at `bullet_speed`
/// plus what the ship's velocity adds, meets a target that moves from
/// `target` with `target_velocity` and `target_acceleration`. The solver
/// starts at the target's place and, pass by pass, moves the estimate to
/// where the target is when the projectile gets to the estimate before; it
/// stops as `config` says, or where no projectile gets to the estimate, and
/// then reports the estimate it has. The result is that estimate less the
/// ship's own displacement during the flight.
pub fn lead(
    target: Vector2,
    target_velocity: Vector2,
    target_acceleration: Vector2,
    bullet_speed: Fixed,
    target_size: Fixed,
    origin_position: Vector2,
    sensors: &SensorSnapshot,
    config: &SolverConfig,
) -> (point: Vector2)
    ensures
        point == spec_lead(
            Shot {
                target,
                target_velocity,
                target_acceleration,
                bullet_speed,
                target_size,
                origin: origin_position,
            },
            *sensors,
            *config,
        ),
        target_velocity.is_zero() && target_acceleration.is_zero() && sensors.velocity.is_zero()
            ==> point == target,
{
    let shot = Shot {
        target,
        target_velocity,
        target_acceleration,
        bullet_speed,
        target_size,
        origin: origin_position,
    };
    solve(&shot, sensors, config)
}

/// The lead point for a projectile fired from the ship's own position.
pub fn lead_from_self(
    target: Vector2,
    target_velocity: Vector2,
    target_acceleration: Vector2,
    bullet_speed: Fixed,
    target_size: Fixed,
    sensors: &SensorSnapshot,
    config: &SolverConfig,
) -> (point: Vector2)
    ensures
        point == spec_lead(
            Shot {
                target,
                target_velocity,
                target_acceleration,
                bullet_speed,
                target_size,
                origin: sensors.position,
            },
            *sensors,
            *config,
        ),
        target_velocity.is_zero() && target_acceleration.is_zero() && sensors.velocity.is_zero()
            ==> point == target,
{
    lead(
        target,
        target_velocity,
        target_acceleration,
        bullet_speed,
        target_size,
        sensors.position,
        sensors,
        config,
    )
}

} // verus!
