//! The target state estimator: the target's acceleration, from its velocity
//! at this tick and at the tick before.

use vstd::prelude::*;
use crate::fixed::{fx_mul, fx_sub, saturate, spec_fx_mul, spec_fx_sub, trunc_div, Fixed, ONE};
use crate::settings::TICKS_PER_SECOND;
use crate::vector::Vector2;

verus! {

/// The one sample of history that the estimator keeps.
#[derive(Clone, Copy, Debug, PartialEq, Eq, Structural)]
pub struct EstimatorState {
    /// The target's velocity as the estimator last saw it.
    pub last_target_velocity: Vector2,
}

impl EstimatorState {
    /// An estimator that has seen a target at rest.
    pub fn new() -> (state: EstimatorState)
        ensures
            state.last_target_velocity == Vector2::zero(),
    {
        EstimatorState { last_target_velocity: Vector2::zero() }
    }

    /// The change of velocity since the last sample, per second.
    pub open spec fn spec_estimate(self, current_velocity: Vector2) -> Vector2 {
        current_velocity.minus(self.last_target_velocity).scaled(TICKS_PER_SECOND)
    }

    /// The target's acceleration: the change of its velocity since the last
    /// call, times the tick rate. The velocity given becomes the last sample,
    /// so one call per tick gives the acceleration over that tick.
    pub fn estimate_acceleration(&mut self, current_velocity: Vector2) -> (acceleration: Vector2)
        ensures
            acceleration == old(self).spec_estimate(current_velocity),
            acceleration.x == saturate(
                60 * fx_sub(current_velocity.x, old(self).last_target_velocity.x),
            ),
            acceleration.y == saturate(
                60 * fx_sub(current_velocity.y, old(self).last_target_velocity.y),
            ),
            final(self).last_target_velocity == current_velocity,
    {
        proof {
            lemma_sixty_per_second(fx_sub(current_velocity.x, self.last_target_velocity.x));
            lemma_sixty_per_second(fx_sub(current_velocity.y, self.last_target_velocity.y));
        }
        let acceleration = current_velocity.minus(self.last_target_velocity).scaled(
            TICKS_PER_SECOND,
        );
        self.last_target_velocity = current_velocity;
        acceleration
    }
}

/// A change per tick, times the tick rate, is sixty times the change.
pub proof fn lemma_sixty_per_second(change: Fixed)
    ensures
        fx_mul(change, TICKS_PER_SECOND) == saturate(60 * change),
{
    let c = change as int;
    assert(c * TICKS_PER_SECOND == (60 * c) * ONE) by (nonlinear_arith)
        requires
            TICKS_PER_SECOND == 60_000_000,
            ONE == 1_000_000,
    ;
    if c >= 0 {
        vstd::arithmetic::div_mod::lemma_div_by_multiple(60 * c, ONE as int);
    } else {
        assert(-((60 * c) * ONE) == (-(60 * c)) * ONE) by (nonlinear_arith);
        vstd::arithmetic::div_mod::lemma_div_by_multiple(-(60 * c), ONE as int);
    }
    assert(trunc_div(c * TICKS_PER_SECOND, ONE as int) == 60 * c);
}

} // verus!
