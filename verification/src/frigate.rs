//! The frigate: a main gun along the nose, a turret on either side, and
//! missiles.

use vstd::prelude::*;
use crate::ballistics::{
    get_angular_target_size, lead, lead_from_self, spec_get_angular_target_size, spec_lead, Shot,
    SolverConfig,
};
use crate::command::{FireRule, Plan, Steering};
use crate::estimator::EstimatorState;
use crate::fighter::{first_sweep, spec_first_radar_state, spec_first_sweep};
use crate::navigation::{
    calculate_dogfight_acceleration, get_angular_speed, spec_dogfight_acceleration,
    spec_get_angular_speed,
};
use crate::radar::{spec_track, track, RadarCommand, RadarSweepState};
use crate::sensor::{Contact, SensorSnapshot, ShipClass};
use crate::settings::{
    BULLET_SPEED, ENEMY_SIZE, MAX_CONE_ANGLE, RAILGUN_BULLET_SPEED, TURRET_OFFSET,
};
use crate::ship::{search, spec_search};
use crate::vector::Vector2;

verus! {

/// A frigate's estimator and radar scheduler.
#[derive(Clone, Copy, Debug, PartialEq, Eq, Structural)]
pub struct Frigate {
    pub estimator: EstimatorState,
    pub radar: RadarSweepState,
}

/// Where the turret on the given side of the centre line is: `offset` to
/// the left of the ship's position, seen along the nose.
pub open spec fn spec_turret_position(sensors: SensorSnapshot, offset: int) -> Vector2 {
    Vector2 { x: 0, y: offset as i64 }.rotated(sensors.heading_direction).plus(sensors.position)
}

/// The lead point of a turret at `turret_position`.
pub open spec fn spec_turret_lead(
    sensors: SensorSnapshot,
    contact: Contact,
    target_acceleration: Vector2,
    turret_position: Vector2,
) -> Vector2 {
    spec_lead(
        Shot {
            target: contact.position,
            target_velocity: contact.velocity,
            target_acceleration,
            bullet_speed: BULLET_SPEED,
            target_size: ENEMY_SIZE,
            origin: turret_position,
        },
        sensors,
        SolverConfig::standard(),
    )
}

/// What a frigate does about a contact, given the contact's acceleration.
pub open spec fn spec_frigate_plan(
    sensors: SensorSnapshot,
    contact: Contact,
    target_acceleration: Vector2,
) -> Plan {
    let target_angular_speed = spec_get_angular_speed(
        contact.position,
        contact.velocity,
        sensors,
    );
    let lead_position = spec_lead(
        Shot {
            target: contact.position,
            target_velocity: contact.velocity,
            target_acceleration,
            bullet_speed: RAILGUN_BULLET_SPEED,
            target_size: ENEMY_SIZE,
            origin: sensors.position,
        },
        sensors,
        SolverConfig::standard(),
    );
    let right_turret = spec_turret_position(sensors, TURRET_OFFSET as int);
    let left_turret = spec_turret_position(sensors, -TURRET_OFFSET);
    Plan {
        acceleration: Some(
            spec_dogfight_acceleration(
                contact.position,
                contact.bearing,
                target_angular_speed,
                MAX_CONE_ANGLE,
                sensors,
            ),
        ),
        steering: Steering::Face {
            direction: lead_position.minus(sensors.position),
            target_angular_speed,
            rule: FireRule::GunAndMissiles {
                angular_target_size: spec_get_angular_target_size(
                    ENEMY_SIZE,
                    lead_position,
                    sensors,
                ),
                target_distance: contact.position.distance(sensors.position),
            },
        },
        aim_1: Some(
            spec_turret_lead(sensors, contact, target_acceleration, right_turret).minus(
                right_turret,
            ),
        ),
        aim_2: Some(
            spec_turret_lead(sensors, contact, target_acceleration, left_turret).minus(
                left_turret,
            ),
        ),
        fire_1: true,
        fire_2: true,
        ..Plan::idle()
    }
}

impl Frigate {
    /// The radar scheduler is well formed.
    pub open spec fn wf(self) -> bool {
        self.radar.wf()
    }

    /// Whether the ship is well formed.
    pub fn is_valid(&self) -> (valid: bool)
        ensures
            valid == self.wf(),
    {
        self.radar.is_valid()
    }

    /// The frigate at the start of its first sweep.
    pub open spec fn spec_new() -> Frigate {
        Frigate {
            estimator: EstimatorState { last_target_velocity: Vector2::zero() },
            radar: spec_first_radar_state(),
        }
    }

    /// A frigate at the start of its first sweep, and the radar command that
    /// starts the sweep.
    pub fn new() -> (result: (Frigate, RadarCommand))
        ensures
            result.0 == Frigate::spec_new(),
            result.0.wf(),
            result.1 == spec_first_sweep(),
    {
        let (radar, command) = first_sweep();
        (Frigate { estimator: EstimatorState::new(), radar }, command)
    }

    /// The frigate after engaging a contact, and its plan.
    pub open spec fn spec_frigate_targeting(self, sensors: SensorSnapshot, contact: Contact) -> (
        Frigate,
        Plan,
    ) {
        (
            Frigate {
                estimator: EstimatorState { last_target_velocity: contact.velocity },
                radar: self.radar,
            },
            spec_frigate_plan(sensors, contact, self.estimator.spec_estimate(contact.velocity)),
        )
    }

    /// The frigate after a tick, and the plan of the tick.
    pub open spec fn spec_tick(self, sensors: SensorSnapshot) -> (Frigate, Plan) {
        if self.radar.scans_remaining == 0 && sensors.contact is Some {
            let contact = sensors.contact->0;
            if contact.class == ShipClass::Missile {
                (self, Plan::idle())
            } else {
                let (next, plan) = self.spec_frigate_targeting(sensors, contact);
                (next, Plan { radar: Some(spec_track(sensors, contact)), ..plan })
            }
        } else {
            let (radar, plan) = spec_search(
                self.radar,
                sensors,
                sensors.heading_direction.scaled(sensors.max_forward_acceleration),
                Steering::Coast,
            );
            (Frigate { estimator: self.estimator, radar }, plan)
        }
    }

    /// One tick of the frigate. While it tracks a contact that is no
    /// missile, it keeps the radar on the contact and engages it; a missile
    /// in the beam makes it do nothing at all. Without a contact it flies
    /// straight ahead at full thrust and searches.
    pub fn tick(&mut self, sensors: &SensorSnapshot) -> (plan: Plan)
        requires
            old(self).wf(),
        ensures
            (*final(self), plan) == old(self).spec_tick(*sensors),
            final(self).wf(),
            old(self).radar.is_tracking() && sensors.contact is None ==> final(self).radar.is_scanning()
                && plan.radar is Some && plan.radar->0 is Sweep,
            old(self).radar.is_tracking() && sensors.contact is Some && sensors.contact->0.class
                == ShipClass::Missile ==> plan == Plan::idle() && *final(self) == *old(self),
    {
        if self.radar.is_tracking() {
            if let Some(contact) = sensors.contact {
                if contact.class == ShipClass::Missile {
                    return Plan::idle();
                }
                let mut plan = self.frigate_targeting(sensors, contact);
                plan.radar = Some(track(sensors, contact));
                return plan;
            }
        }
        search(
            &mut self.radar,
            sensors,
            sensors.heading_direction.scaled(sensors.max_forward_acceleration),
            Steering::Coast,
        )
    }

    /// Engages a contact: thrust as the dogfight policy says, nose on the
    /// lead point of the main gun, which fires while the firing gate is
    /// open, as the missiles do while the missile gate is open; each turret
    /// aims at its own lead point and fires.
    pub fn frigate_targeting(&mut self, sensors: &SensorSnapshot, contact: Contact) -> (plan: Plan)
        ensures
            (*final(self), plan) == old(self).spec_frigate_targeting(*sensors, contact),
            final(self).radar == old(self).radar,
    {
        let target_acceleration = self.get_target_acceleration(contact.velocity);
        let target_angular_speed = get_angular_speed(contact.position, contact.velocity, sensors);
        let acceleration = calculate_dogfight_acceleration(
            contact.position,
            contact.bearing,
            target_angular_speed,
            MAX_CONE_ANGLE,
            sensors,
        );
        let config = SolverConfig::standard();
        let lead_position = lead_from_self(
            contact.position,
            contact.velocity,
            target_acceleration,
            RAILGUN_BULLET_SPEED,
            ENEMY_SIZE,
            sensors,
            &config,
        );
        let right_turret = Vector2::new(0, TURRET_OFFSET).rotated(sensors.heading_direction).plus(
            sensors.position,
        );
        let left_turret = Vector2::new(0, -TURRET_OFFSET).rotated(sensors.heading_direction).plus(
            sensors.position,
        );
        let right_lead = lead(
            contact.position,
            contact.velocity,
            target_acceleration,
            BULLET_SPEED,
            ENEMY_SIZE,
            right_turret,
            sensors,
            &config,
        );
        let left_lead = lead(
            contact.position,
            contact.velocity,
            target_acceleration,
            BULLET_SPEED,
            ENEMY_SIZE,
            left_turret,
            sensors,
            &config,
        );
        let mut plan = Plan::idle();
        plan.acceleration = Some(acceleration);
        plan.steering = Steering::Face {
            direction: lead_position.minus(sensors.position),
            target_angular_speed,
            rule: FireRule::GunAndMissiles {
                angular_target_size: get_angular_target_size(ENEMY_SIZE, lead_position, sensors),
                target_distance: contact.position.distance(sensors.position),
            },
        };
        plan.aim_1 = Some(right_lead.minus(right_turret));
        plan.aim_2 = Some(left_lead.minus(left_turret));
        plan.fire_1 = true;
        plan.fire_2 = true;
        plan
    }

    /// The target's acceleration; to be called once per tick.
    pub fn get_target_acceleration(&mut self, target_velocity: Vector2) -> (acceleration: Vector2)
        ensures
            acceleration == old(self).estimator.spec_estimate(target_velocity),
            final(self).estimator.last_target_velocity == target_velocity,
            final(self).radar == old(self).radar,
    {
        self.estimator.estimate_acceleration(target_velocity)
    }
}

} // verus!
