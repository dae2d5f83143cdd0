//! The cruiser: one turret, and missiles and torpedoes that it fires
//! whenever it has a target.

use vstd::prelude::*;
use crate::ballistics::{lead_from_self, spec_lead, Shot, SolverConfig};
use crate::command::{FireRule, Plan, Steering};
use crate::estimator::EstimatorState;
use crate::fighter::{first_sweep, spec_first_radar_state, spec_first_sweep};
use crate::navigation::{
    calculate_dogfight_acceleration, get_angular_speed, spec_dogfight_acceleration,
    spec_get_angular_speed,
};
use crate::radar::{spec_track, track, RadarCommand, RadarSweepState};
use crate::sensor::{Contact, SensorSnapshot, ShipClass};
use crate::settings::{ENEMY_SIZE, MAX_CONE_ANGLE, RAILGUN_BULLET_SPEED};
use crate::ship::{search, spec_search};
use crate::vector::Vector2;

verus! {

/// A cruiser's estimator and radar scheduler.
#[derive(Clone, Copy, Debug, PartialEq, Eq, Structural)]
pub struct Cruiser {
    pub estimator: EstimatorState,
    pub radar: RadarSweepState,
}

/// What a cruiser does about a contact, given the contact's acceleration.
pub open spec fn spec_cruiser_plan(
    sensors: SensorSnapshot,
    contact: Contact,
    target_acceleration: Vector2,
) -> Plan {
    let target_angular_speed = spec_get_angular_speed(
        contact.position,
        contact.velocity,
        sensors,
    );
    let turret_lead = spec_lead(
        Shot {
            target: contact.position,
            target_velocity: contact.velocity,
            target_acceleration,
            bullet_speed: RAILGUN_BULLET_SPEED,
            target_size: ENEMY_SIZE,
            origin: sensors.position,
        },
        sensors,
        SolverConfig::standard(),
    );
    Plan {
        acceleration: Some(
            spec_dogfight_acceleration(
                contact.position,
                contact.bearing,
                target_angular_speed,
                MAX_CONE_ANGLE,
                sensors,
            ),
        ),
        steering: Steering::Face {
            direction: turret_lead.minus(sensors.position),
            target_angular_speed,
            rule: FireRule::Hold,
        },
        aim_0: Some(turret_lead.minus(sensors.position)),
        fire_0: true,
        fire_1: true,
        fire_2: true,
        fire_3: true,
        ..Plan::idle()
    }
}

impl Cruiser {
    /// The radar scheduler is well formed.
    pub open spec fn wf(self) -> bool {
        self.radar.wf()
    }

    /// Whether the ship is well formed.
    pub fn is_valid(&self) -> (valid: bool)
        ensures
            valid == self.wf(),
    {
        self.radar.is_valid()
    }

    /// The cruiser at the start of its first sweep.
    pub open spec fn spec_new() -> Cruiser {
        Cruiser {
            estimator: EstimatorState { last_target_velocity: Vector2::zero() },
            radar: spec_first_radar_state(),
        }
    }

    /// A cruiser at the start of its first sweep, and the radar command that
    /// starts the sweep.
    pub fn new() -> (result: (Cruiser, RadarCommand))
        ensures
            result.0 == Cruiser::spec_new(),
            result.0.wf(),
            result.1 == spec_first_sweep(),
    {
        let (radar, command) = first_sweep();
        (Cruiser { estimator: EstimatorState::new(), radar }, command)
    }

    /// The cruiser after engaging a contact, and its plan.
    pub open spec fn spec_cruiser_targeting(self, sensors: SensorSnapshot, contact: Contact) -> (
        Cruiser,
        Plan,
    ) {
        (
            Cruiser {
                estimator: EstimatorState { last_target_velocity: contact.velocity },
                radar: self.radar,
            },
            spec_cruiser_plan(sensors, contact, self.estimator.spec_estimate(contact.velocity)),
        )
    }

    /// The cruiser after a tick, and the plan of the tick.
    pub open spec fn spec_tick(self, sensors: SensorSnapshot) -> (Cruiser, Plan) {
        if self.radar.scans_remaining == 0 && sensors.contact is Some {
            let contact = sensors.contact->0;
            if contact.class == ShipClass::Missile {
                (self, Plan::idle())
            } else {
                let (next, plan) = self.spec_cruiser_targeting(sensors, contact);
                (next, Plan { radar: Some(spec_track(sensors, contact)), ..plan })
            }
        } else {
            let (radar, plan) = spec_search(
                self.radar,
                sensors,
                sensors.heading_direction.scaled(sensors.max_forward_acceleration),
                Steering::Coast,
            );
            (Cruiser { estimator: self.estimator, radar }, plan)
        }
    }

    /// One tick of the cruiser. While it tracks a contact that is no
    /// missile, it keeps the radar on the contact and engages it; a missile
    /// in the beam makes it do nothing at all. Without a contact it flies
    /// straight ahead at full thrust and searches.
    pub fn tick(&mut self, sensors: &SensorSnapshot) -> (plan: Plan)
        requires
            old(self).wf(),
        ensures
            (*final(self), plan) == old(self).spec_tick(*sensors),
            final(self).wf(),
            old(self).radar.is_tracking() && sensors.contact is None ==> final(self).radar.is_scanning()
                && plan.radar is Some && plan.radar->0 is Sweep,
            old(self).radar.is_tracking() && sensors.contact is Some && sensors.contact->0.class
                == ShipClass::Missile ==> plan == Plan::idle() && *final(self) == *old(self),
    {
        if self.radar.is_tracking() {
            if let Some(contact) = sensors.contact {
                if contact.class == ShipClass::Missile {
                    return Plan::idle();
                }
                let mut plan = self.cruiser_targeting(sensors, contact);
                plan.radar = Some(track(sensors, contact));
                return plan;
            }
        }
        search(
            &mut self.radar,
            sensors,
            sensors.heading_direction.scaled(sensors.max_forward_acceleration),
            Steering::Coast,
        )
    }

    /// Engages a contact: thrust as the dogfight policy says, nose and
    /// turret on the turret's lead point, and every weapon fires.
    pub fn cruiser_targeting(&mut self, sensors: &SensorSnapshot, contact: Contact) -> (plan: Plan)
        ensures
            (*final(self), plan) == old(self).spec_cruiser_targeting(*sensors, contact),
            final(self).radar == old(self).radar,
    {
        let target_acceleration = self.get_target_acceleration(contact.velocity);
        let target_angular_speed = get_angular_speed(contact.position, contact.velocity, sensors);
        let acceleration = calculate_dogfight_acceleration(
            contact.position,
            contact.bearing,
            target_angular_speed,
            MAX_CONE_ANGLE,
            sensors,
        );
        let turret_lead = lead_from_self(
            contact.position,
            contact.velocity,
            target_acceleration,
            RAILGUN_BULLET_SPEED,
            ENEMY_SIZE,
            sensors,
            &SolverConfig::standard(),
        );
        let mut plan = Plan::idle();
        plan.acceleration = Some(acceleration);
        plan.steering = Steering::Face {
            direction: turret_lead.minus(sensors.position),
            target_angular_speed,
            rule: FireRule::Hold,
        };
        plan.aim_0 = Some(turret_lead.minus(sensors.position));
        plan.fire_0 = true;
        plan.fire_1 = true;
        plan.fire_2 = true;
        plan.fire_3 = true;
        plan
    }

    /// The target's acceleration; to be called once per tick.
    pub fn get_target_acceleration(&mut self, target_velocity: Vector2) -> (acceleration: Vector2)
        ensures
            acceleration == old(self).estimator.spec_estimate(target_velocity),
            final(self).estimator.last_target_velocity == target_velocity,
            final(self).radar == old(self).radar,
    {
        self.estimator.estimate_acceleration(target_velocity)
    }
}

} // verus!
