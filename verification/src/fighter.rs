//! The fighter: it dogfights with its gun at close range, cruises towards
//! targets further off, and launches missiles on the way.

use vstd::prelude::*;
use crate::angle::{angle_diff, spec_angle_diff};
use crate::ballistics::{
    get_angular_target_size, lead_from_self, spec_get_angular_target_size, spec_lead, Shot,
    SolverConfig,
};
use crate::command::{
    missile_gate, spec_missile_gate, BoostCommand, FireRule, Plan, Steering,
};
use crate::estimator::EstimatorState;
use crate::navigation::{
    calculate_dogfight_acceleration, calculate_prop_nav_acceleration, get_angular_speed,
    spec_dogfight_acceleration, spec_get_angular_speed, spec_prop_nav_acceleration,
};
use crate::radar::{
    reset, spec_sector_width, spec_track, track, RadarCommand, RadarSweepState, NO_CONTACT,
};
use crate::sensor::{Contact, SensorSnapshot, ShipClass};
use crate::settings::{
    BULLET_SPEED, C_DIST, ENEMY_SIZE, GUN_READY_TICKS, MAX_CONE_ANGLE, SCAN_SECTIONS,
};
use crate::ship::{search, spec_search};
use crate::vector::Vector2;

verus! {

/// The radar state in which every ship of the fleet starts: at the start of
/// a sweep of `SCAN_SECTIONS` sectors.
pub open spec fn spec_first_radar_state() -> RadarSweepState {
    RadarSweepState {
        scans_remaining: SCAN_SECTIONS,
        best_contact_angle: NO_CONTACT,
        sector_count: SCAN_SECTIONS,
    }
}

/// The radar command with which every ship of the fleet starts.
pub open spec fn spec_first_sweep() -> RadarCommand {
    RadarCommand::Sweep { width: spec_sector_width(SCAN_SECTIONS) }
}

/// The radar state and command with which every ship of the fleet starts.
pub fn first_sweep() -> (result: (RadarSweepState, RadarCommand))
    ensures
        result.0 == spec_first_radar_state(),
        result.1 == spec_first_sweep(),
        result.0.wf(),
{
    let mut radar = RadarSweepState::new(SCAN_SECTIONS);
    let command = reset(&mut radar);
    (radar, command)
}

/// A fighter's estimator and radar scheduler.
#[derive(Clone, Copy, Debug, PartialEq, Eq, Structural)]
pub struct Fighter {
    pub estimator: EstimatorState,
    pub radar: RadarSweepState,
}

/// What a fighter does in a dogfight.
pub open spec fn spec_dogfight_mode(
    sensors: SensorSnapshot,
    contact: Contact,
    target_acceleration: Vector2,
) -> Plan {
    let target_angular_speed = spec_get_angular_speed(
        contact.position,
        contact.velocity,
        sensors,
    );
    let lead_position = spec_lead(
        Shot {
            target: contact.position,
            target_velocity: contact.velocity,
            target_acceleration,
            bullet_speed: BULLET_SPEED,
            target_size: ENEMY_SIZE,
            origin: sensors.position,
        },
        sensors,
        SolverConfig::standard(),
    );
    Plan {
        acceleration: Some(
            spec_dogfight_acceleration(
                contact.position,
                contact.bearing,
                target_angular_speed,
                MAX_CONE_ANGLE,
                sensors,
            ),
        ),
        steering: Steering::Face {
            direction: lead_position.minus(sensors.position),
            target_angular_speed,
            rule: FireRule::Gun {
                angular_target_size: spec_get_angular_target_size(
                    ENEMY_SIZE,
                    lead_position,
                    sensors,
                ),
            },
        },
        ..Plan::idle()
    }
}

/// Whether a fighter dogfights: its gun is about ready, the target does not
/// run away faster than a bullet flies, and it is near.
pub open spec fn spec_in_gun_range(sensors: SensorSnapshot, contact: Contact) -> bool {
    let relative_position = contact.position.minus(sensors.position);
    let relative_velocity = contact.velocity.minus(sensors.velocity);
    sensors.gun_reload_ticks <= GUN_READY_TICKS && relative_velocity.dot(
        relative_position.normalized(),
    ) < BULLET_SPEED && relative_position.length() < C_DIST
}

impl Fighter {
    /// The radar scheduler is well formed.
    pub open spec fn wf(self) -> bool {
        self.radar.wf()
    }

    /// Whether the ship is well formed.
    pub fn is_valid(&self) -> (valid: bool)
        ensures
            valid == self.wf(),
    {
        self.radar.is_valid()
    }

    /// The fighter at the start of its first sweep.
    pub open spec fn spec_new() -> Fighter {
        Fighter {
            estimator: EstimatorState { last_target_velocity: Vector2::zero() },
            radar: spec_first_radar_state(),
        }
    }

    /// A fighter at the start of its first sweep, and the radar command that
    /// starts the sweep.
    pub fn new() -> (result: (Fighter, RadarCommand))
        ensures
            result.0 == Fighter::spec_new(),
            result.0.wf(),
            result.1 == spec_first_sweep(),
    {
        let (radar, command) = first_sweep();
        (Fighter { estimator: EstimatorState::new(), radar }, command)
    }

    /// The fighter after engaging a contact, and its plan.
    pub open spec fn spec_fighter_targeting(self, sensors: SensorSnapshot, contact: Contact) -> (
        Fighter,
        Plan,
    ) {
        let target_acceleration = self.estimator.spec_estimate(contact.velocity);
        let next = Fighter {
            estimator: EstimatorState { last_target_velocity: contact.velocity },
            radar: self.radar,
        };
        let maneuver = if spec_in_gun_range(sensors, contact) {
            Plan {
                boost: BoostCommand::Deactivate,
                ..spec_dogfight_mode(sensors, contact, target_acceleration)
            }
        } else {
            let acceleration = spec_prop_nav_acceleration(
                contact.position,
                contact.velocity,
                sensors,
            );
            Plan {
                acceleration: Some(acceleration),
                steering: Steering::Face {
                    direction: acceleration,
                    target_angular_speed: 0,
                    rule: FireRule::Hold,
                },
                boost: BoostCommand::Activate,
                ..Plan::idle()
            }
        };
        (
            next,
            Plan {
                fire_1: sensors.missile_reload_ticks == 0 && missile_gate(
                    angle_diff(sensors.heading, contact.bearing),
                    contact.position.minus(sensors.position).length(),
                ),
                ..maneuver
            },
        )
    }

    /// The fighter after a tick, and the plan of the tick.
    pub open spec fn spec_tick(self, sensors: SensorSnapshot) -> (Fighter, Plan) {
        if self.radar.scans_remaining == 0 && sensors.contact is Some {
            let contact = sensors.contact->0;
            if contact.class == ShipClass::Missile {
                (self, Plan::idle())
            } else {
                let (next, plan) = self.spec_fighter_targeting(sensors, contact);
                (next, Plan { radar: Some(spec_track(sensors, contact)), ..plan })
            }
        } else {
            let (radar, plan) = spec_search(
                self.radar,
                sensors,
                sensors.heading_direction.scaled(sensors.max_forward_acceleration),
                Steering::Coast,
            );
            (Fighter { estimator: self.estimator, radar }, plan)
        }
    }

    /// One tick of the fighter. While it tracks a contact that is no
    /// missile, it keeps the radar on the contact and engages it; a missile
    /// in the beam makes it do nothing at all. Without a contact it flies
    /// straight ahead at full thrust and searches.
    pub fn tick(&mut self, sensors: &SensorSnapshot) -> (plan: Plan)
        requires
            old(self).wf(),
        ensures
            (*final(self), plan) == old(self).spec_tick(*sensors),
            final(self).wf(),
            old(self).radar.is_tracking() && sensors.contact is None ==> final(self).radar.is_scanning()
                && plan.radar is Some && plan.radar->0 is Sweep,
            old(self).radar.is_tracking() && sensors.contact is Some && sensors.contact->0.class
                == ShipClass::Missile ==> plan == Plan::idle() && *final(self) == *old(self),
    {
        if self.radar.is_tracking() {
            if let Some(contact) = sensors.contact {
                if contact.class == ShipClass::Missile {
                    return Plan::idle();
                }
                let mut plan = self.fighter_targeting(sensors, contact);
                plan.radar = Some(track(sensors, contact));
                return plan;
            }
        }
        search(
            &mut self.radar,
            sensors,
            sensors.heading_direction.scaled(sensors.max_forward_acceleration),
            Steering::Coast,
        )
    }

    /// Engages a contact. In gun range the fighter dogfights, with the boost
    /// off; otherwise it closes in by proportional navigation, nose along
    /// the thrust, with the boost on. Either way it launches a missile when
    /// the launcher is loaded and the missile gate is open.
    pub fn fighter_targeting(&mut self, sensors: &SensorSnapshot, contact: Contact) -> (plan: Plan)
        ensures
            (*final(self), plan) == old(self).spec_fighter_targeting(*sensors, contact),
            final(self).radar == old(self).radar,
    {
        let target_acceleration = self.get_target_acceleration(contact.velocity);
        let relative_position = contact.position.minus(sensors.position);
        let relative_velocity = contact.velocity.minus(sensors.velocity);
        let closing = relative_velocity.dot(relative_position.normalized());
        let distance = relative_position.length();
        let mut plan = if sensors.gun_reload_ticks <= GUN_READY_TICKS && closing < BULLET_SPEED
            && distance < C_DIST {
            let mut plan = self.dogfight_mode(sensors, contact, target_acceleration);
            plan.boost = BoostCommand::Deactivate;
            plan
        } else {
            let acceleration = calculate_prop_nav_acceleration(
                contact.position,
                contact.velocity,
                sensors,
            );
            let mut plan = Plan::idle();
            plan.acceleration = Some(acceleration);
            plan.steering = Steering::Face {
                direction: acceleration,
                target_angular_speed: 0,
                rule: FireRule::Hold,
            };
            plan.boost = BoostCommand::Activate;
            plan
        };
        plan.fire_1 = sensors.missile_reload_ticks == 0 && missile_gate(
            angle_diff(sensors.heading, contact.bearing),
            distance,
        );
        plan
    }

    /// Fights at close range: thrust as the dogfight policy says, nose on
    /// the lead point of the gun, and the gun fires while the firing gate is
    /// open.
    pub fn dogfight_mode(
        &mut self,
        sensors: &SensorSnapshot,
        contact: Contact,
        target_acceleration: Vector2,
    ) -> (plan: Plan)
        ensures
            plan == spec_dogfight_mode(*sensors, contact, target_acceleration),
            *final(self) == *old(self),
    {
        let target_angular_speed = get_angular_speed(contact.position, contact.velocity, sensors);
        let acceleration = calculate_dogfight_acceleration(
            contact.position,
            contact.bearing,
            target_angular_speed,
            MAX_CONE_ANGLE,
            sensors,
        );
        let lead_position = lead_from_self(
            contact.position,
            contact.velocity,
            target_acceleration,
            BULLET_SPEED,
            ENEMY_SIZE,
            sensors,
            &SolverConfig::standard(),
        );
        let mut plan = Plan::idle();
        plan.acceleration = Some(acceleration);
        plan.steering = Steering::Face {
            direction: lead_position.minus(sensors.position),
            target_angular_speed,
            rule: FireRule::Gun {
                angular_target_size: get_angular_target_size(ENEMY_SIZE, lead_position, sensors),
            },
        };
        plan
    }

    /// The target's acceleration; to be called once per tick.
    pub fn get_target_acceleration(&mut self, target_velocity: Vector2) -> (acceleration: Vector2)
        ensures
            acceleration == old(self).estimator.spec_estimate(target_velocity),
            final(self).estimator.last_target_velocity == target_velocity,
            final(self).radar == old(self).radar,
    {
        self.estimator.estimate_acceleration(target_velocity)
    }
}

} // verus!
