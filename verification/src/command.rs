//! What the ship tells its actuators.
//!
//! A tick has two steps. The first, a ship's `tick`, plans everything that
//! follows from the sensors: the radar command, the thrust, the weapons that
//! fire whatever the nose does, and where the nose is to point. Pointing
//! needs the angle from the nose to a direction that the plan has computed;
//! the caller measures it and hands it to [`steer`], the second step, which
//! gives the torque and decides what hangs on that angle.

use vstd::prelude::*;
use crate::fixed::{fx_abs, fx_half, spec_fx_abs, spec_fx_half, Fixed};
use crate::navigation::{spec_turn, turn};
use crate::radar::RadarCommand;
use crate::sensor::SensorSnapshot;
use crate::settings::{MISSILE_BOOST_ANGLE, MISSILE_FIRE_ANGLE, MISSILE_FIRE_DIST};
use crate::vector::Vector2;

verus! {

/// What to do with the boost ability.
#[derive(Clone, Copy, Debug, PartialEq, Eq, Structural)]
pub enum BoostCommand {
    /// Leave it as it is.
    Keep,
    Activate,
    Deactivate,
}

/// What, beside the torque, hangs on the angle from the nose to the
/// direction to face.
#[derive(Clone, Copy, Debug, PartialEq, Eq, Structural)]
pub enum FireRule {
    /// Nothing.
    Hold,
    /// The gun fires while the target covers the nose's line.
    Gun { angular_target_size: Fixed },
    /// The gun fires while the target covers the nose's line; the missiles
    /// fire while the target is roughly ahead, or near.
    GunAndMissiles { angular_target_size: Fixed, target_distance: Fixed },
    /// The boost is on while the nose is roughly on the direction.
    Boost,
}

/// Where the nose is to go.
#[derive(Clone, Copy, Debug, PartialEq, Eq, Structural)]
pub enum Steering {
    /// No torque is commanded.
    Coast,
    /// The torque is decided.
    Torque { torque: Fixed },
    /// The nose is to point along `direction`, which moves round the ship at
    /// `target_angular_speed`.
    Face { direction: Vector2, target_angular_speed: Fixed, rule: FireRule },
}

/// The first step of a tick: the commands that follow from the sensors.
#[derive(Clone, Copy, Debug, PartialEq, Eq)]
pub struct Plan {
    pub radar: Option<RadarCommand>,
    /// The linear acceleration to ask for, in the world's frame.
    pub acceleration: Option<Vector2>,
    pub boost: BoostCommand,
    /// Weapons 0 to 3: whether each fires.
    pub fire_0: bool,
    pub fire_1: bool,
    pub fire_2: bool,
    pub fire_3: bool,
    /// Weapons 0 to 2: the direction along which each turret is to aim.
    pub aim_0: Option<Vector2>,
    pub aim_1: Option<Vector2>,
    pub aim_2: Option<Vector2>,
    /// Whether the ship blows itself up.
    pub explode: bool,
    pub steering: Steering,
}

/// The second step of a tick: what hangs on the angle to the direction to
/// face.
#[derive(Clone, Copy, Debug, PartialEq, Eq)]
pub struct Helm {
    pub torque: Option<Fixed>,
    /// Whether weapon 0 fires.
    pub fire_0: bool,
    /// Whether weapon 3 fires.
    pub fire_3: bool,
    pub boost: BoostCommand,
}

impl Plan {
    /// The plan that commands nothing.
    pub open spec fn spec_idle() -> Plan {
        Plan {
            radar: None,
            acceleration: None,
            boost: BoostCommand::Keep,
            fire_0: false,
            fire_1: false,
            fire_2: false,
            fire_3: false,
            aim_0: None,
            aim_1: None,
            aim_2: None,
            explode: false,
            steering: Steering::Coast,
        }
    }

    /// The plan that commands nothing.
    #[verifier::when_used_as_spec(spec_idle)]
    pub fn idle() -> (plan: Plan)
        ensures
            plan == Plan::spec_idle(),
    {
        Plan {
            radar: None,
            acceleration: None,
            boost: BoostCommand::Keep,
            fire_0: false,
            fire_1: false,
            fire_2: false,
            fire_3: false,
            aim_0: None,
            aim_1: None,
            aim_2: None,
            explode: false,
            steering: Steering::Coast,
        }
    }
}

impl Helm {
    /// The helm that commands nothing.
    pub open spec fn spec_idle() -> Helm {
        Helm { torque: None, fire_0: false, fire_3: false, boost: BoostCommand::Keep }
    }
}

/// The firing gate: the aim is off by no more than half the angle under
/// which the target is seen.
pub open spec fn spec_fire_gate(turning_angle: Fixed, angular_target_size: Fixed) -> bool {
    fx_abs(turning_angle) <= fx_half(angular_target_size)
}

/// Whether to fire: only while the aim is off by no more than half the
/// angle under which the target is seen.
#[verifier::when_used_as_spec(spec_fire_gate)]
pub fn fire_gate(turning_angle: Fixed, angular_target_size: Fixed) -> (open: bool)
    ensures
        open == spec_fire_gate(turning_angle, angular_target_size),
{
    fx_abs(turning_angle) <= fx_half(angular_target_size)
}

/// The missile gate: the target is less than `MISSILE_FIRE_ANGLE` off the
/// nose, or nearer than `MISSILE_FIRE_DIST`.
pub open spec fn spec_missile_gate(angle_off_nose: Fixed, target_distance: Fixed) -> bool {
    fx_abs(angle_off_nose) < MISSILE_FIRE_ANGLE || target_distance < MISSILE_FIRE_DIST
}

/// Whether to launch a missile: while the target is roughly ahead, or near
/// enough for the missile to find it by itself.
#[verifier::when_used_as_spec(spec_missile_gate)]
pub fn missile_gate(angle_off_nose: Fixed, target_distance: Fixed) -> (open: bool)
    ensures
        open == spec_missile_gate(angle_off_nose, target_distance),
{
    fx_abs(angle_off_nose) < MISSILE_FIRE_ANGLE || target_distance < MISSILE_FIRE_DIST
}

/// What the second step of a tick gives.
pub open spec fn spec_steer(steering: Steering, turning_angle: Fixed, sensors: SensorSnapshot) -> Helm {
    match steering {
        Steering::Coast => Helm::spec_idle(),
        Steering::Torque { torque } => Helm { torque: Some(torque), ..Helm::spec_idle() },
        Steering::Face { direction, target_angular_speed, rule } => {
            let torque = Some(
                spec_turn(
                    turning_angle,
                    target_angular_speed,
                    sensors.angular_velocity,
                    sensors.max_angular_acceleration,
                ),
            );
            match rule {
                FireRule::Hold => Helm { torque, ..Helm::spec_idle() },
                FireRule::Gun { angular_target_size } => Helm {
                    torque,
                    fire_0: fire_gate(turning_angle, angular_target_size),
                    ..Helm::spec_idle()
                },
                FireRule::GunAndMissiles { angular_target_size, target_distance } => Helm {
                    torque,
                    fire_0: fire_gate(turning_angle, angular_target_size),
                    fire_3: missile_gate(turning_angle, target_distance),
                    ..Helm::spec_idle()
                },
                FireRule::Boost => Helm {
                    torque,
                    boost: if turning_angle < MISSILE_BOOST_ANGLE {
                        BoostCommand::Activate
                    } else {
                        BoostCommand::Deactivate
                    },
                    ..Helm::spec_idle()
                },
            }
        },
    }
}

/// The second step of a tick. `turning_angle` is the rotation from the nose
/// to the direction that `steering` asks to face (any value where it asks
/// for none). Where a direction is to be faced, the torque is that of the
/// turn controller for this angle, and the gun, the missiles or the boost
/// follow the rule of `steering`; where the torque is decided already, it is
/// handed on; otherwise nothing is commanded.
pub fn steer(steering: Steering, turning_angle: Fixed, sensors: &SensorSnapshot) -> (helm: Helm)
    ensures
        helm == spec_steer(steering, turning_angle, *sensors),
        steering is Coast ==> helm == Helm::spec_idle(),
{
    match steering {
        Steering::Coast => Helm {
            torque: None,
            fire_0: false,
            fire_3: false,
            boost: BoostCommand::Keep,
        },
        Steering::Torque { torque } => Helm {
            torque: Some(torque),
            fire_0: false,
            fire_3: false,
            boost: BoostCommand::Keep,
        },
        Steering::Face { direction, target_angular_speed, rule } => {
            let torque = Some(turn(turning_angle, target_angular_speed, sensors));
            match rule {
                FireRule::Hold => Helm {
                    torque,
                    fire_0: false,
                    fire_3: false,
                    boost: BoostCommand::Keep,
                },
                FireRule::Gun { angular_target_size } => Helm {
                    torque,
                    fire_0: fire_gate(turning_angle, angular_target_size),
                    fire_3: false,
                    boost: BoostCommand::Keep,
                },
                FireRule::GunAndMissiles { angular_target_size, target_distance } => Helm {
                    torque,
                    fire_0: fire_gate(turning_angle, angular_target_size),
                    fire_3: missile_gate(turning_angle, target_distance),
                    boost: BoostCommand::Keep,
                },
                FireRule::Boost => Helm {
                    torque,
                    fire_0: false,
                    fire_3: false,
                    boost: if turning_angle < MISSILE_BOOST_ANGLE {
                        BoostCommand::Activate
                    } else {
                        BoostCommand::Deactivate
                    },
                },
            }
        },
    }
}

} // verus!
