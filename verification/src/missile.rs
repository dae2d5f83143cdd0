//! The missile: it homes by proportional navigation and detonates next to
//! its target.

use vstd::prelude::*;
use crate::command::{FireRule, Plan, Steering};
use crate::fighter::{first_sweep, spec_first_radar_state, spec_first_sweep};
use crate::fixed::{fx_half, spec_fx_half, Fixed};
use crate::navigation::{
    calculate_prop_nav_acceleration, spec_prop_nav_acceleration, spec_turn, turn_to_static,
};
use crate::radar::{spec_track, track, RadarCommand, RadarSweepState};
use crate::sensor::{Contact, SensorSnapshot, ShipClass};
use crate::settings::EXPLOSION_RANGE;
use crate::ship::{search, spec_search};
use crate::vector::Vector2;

verus! {

/// A missile's radar scheduler and the heading it was launched on.
#[derive(Clone, Copy, Debug, PartialEq, Eq, Structural)]
pub struct Missile {
    pub radar: RadarSweepState,
    /// The heading at launch.
    pub launch_angle: Fixed,
    /// The cosine and the sine of `launch_angle`.
    pub launch_direction: Vector2,
}

/// What a missile does about a contact.
pub open spec fn spec_missile_targeting(sensors: SensorSnapshot, contact: Contact) -> Plan {
    let acceleration = spec_prop_nav_acceleration(contact.position, contact.velocity, sensors);
    Plan {
        acceleration: Some(acceleration),
        steering: Steering::Face {
            direction: acceleration,
            target_angular_speed: 0,
            rule: FireRule::Boost,
        },
        explode: contact.position.distance(sensors.position) < EXPLOSION_RANGE,
        ..Plan::idle()
    }
}

impl Missile {
    /// The radar scheduler is well formed.
    pub open spec fn wf(self) -> bool {
        self.radar.wf()
    }

    /// Whether the ship is well formed.
    pub fn is_valid(&self) -> (valid: bool)
        ensures
            valid == self.wf(),
    {
        self.radar.is_valid()
    }

    /// The missile at the start of its first sweep, launched on the heading
    /// that the sensors show.
    pub open spec fn spec_new(sensors: SensorSnapshot) -> Missile {
        Missile {
            radar: spec_first_radar_state(),
            launch_angle: sensors.heading,
            launch_direction: sensors.heading_direction,
        }
    }

    /// A missile at the start of its first sweep, which remembers the
    /// heading it has now, and the radar command that starts the sweep.
    pub fn new(sensors: &SensorSnapshot) -> (result: (Missile, RadarCommand))
        ensures
            result.0 == Missile::spec_new(*sensors),
            result.0.wf(),
            result.1 == spec_first_sweep(),
    {
        let (radar, command) = first_sweep();
        (
            Missile {
                radar,
                launch_angle: sensors.heading,
                launch_direction: sensors.heading_direction,
            },
            command,
        )
    }

    /// The thrust of a missile without a target: half the forward limit,
    /// along the heading at launch.
    pub open spec fn spec_search_thrust(self, sensors: SensorSnapshot) -> Vector2 {
        Vector2 {
            x: fx_half(self.launch_direction.scaled(sensors.max_forward_acceleration).x),
            y: fx_half(self.launch_direction.scaled(sensors.max_forward_acceleration).y),
        }
    }

    /// The missile after a tick, and the plan of the tick.
    pub open spec fn spec_tick(self, sensors: SensorSnapshot) -> (Missile, Plan) {
        if self.radar.scans_remaining == 0 && sensors.contact is Some {
            let contact = sensors.contact->0;
            if contact.class == ShipClass::Missile {
                (self, Plan::idle())
            } else {
                (
                    self,
                    Plan {
                        radar: Some(spec_track(sensors, contact)),
                        ..spec_missile_targeting(sensors, contact)
                    },
                )
            }
        } else {
            let (radar, plan) = spec_search(
                self.radar,
                sensors,
                self.spec_search_thrust(sensors),
                Steering::Torque {
                    torque: spec_turn(
                        self.launch_angle,
                        0,
                        sensors.angular_velocity,
                        sensors.max_angular_acceleration,
                    ),
                },
            );
            (
                Missile {
                    radar,
                    launch_angle: self.launch_angle,
                    launch_direction: self.launch_direction,
                },
                plan,
            )
        }
    }

    /// One tick of the missile. While it tracks a contact that is no
    /// missile, it keeps the radar on the contact and homes on it; a missile
    /// in the beam makes it do nothing at all. Without a contact it searches,
    /// at half thrust along the heading at launch; the turn controller is
    /// handed that heading as the angle to close.
    pub fn tick(&mut self, sensors: &SensorSnapshot) -> (plan: Plan)
        requires
            old(self).wf(),
        ensures
            (*final(self), plan) == old(self).spec_tick(*sensors),
            final(self).wf(),
            old(self).radar.is_tracking() && sensors.contact is None ==> final(self).radar.is_scanning()
                && plan.radar is Some && plan.radar->0 is Sweep,
            old(self).radar.is_tracking() && sensors.contact is Some && sensors.contact->0.class
                == ShipClass::Missile ==> plan == Plan::idle() && *final(self) == *old(self),
    {
        if self.radar.is_tracking() {
            if let Some(contact) = sensors.contact {
                if contact.class == ShipClass::Missile {
                    return Plan::idle();
                }
                let mut plan = self.missile_targeting(sensors, contact);
                plan.radar = Some(track(sensors, contact));
                return plan;
            }
        }
        let full = self.launch_direction.scaled(sensors.max_forward_acceleration);
        let thrust = Vector2 { x: fx_half(full.x), y: fx_half(full.y) };
        let torque = turn_to_static(self.launch_angle, sensors);
        search(&mut self.radar, sensors, thrust, Steering::Torque { torque })
    }

    /// Homes on a contact: thrust by proportional navigation, nose along the
    /// thrust, boost while the nose is roughly there, and detonation inside
    /// `EXPLOSION_RANGE`.
    pub fn missile_targeting(&mut self, sensors: &SensorSnapshot, contact: Contact) -> (plan: Plan)
        ensures
            plan == spec_missile_targeting(*sensors, contact),
            *final(self) == *old(self),
    {
        let acceleration = calculate_prop_nav_acceleration(
            contact.position,
            contact.velocity,
            sensors,
        );
        let mut plan = Plan::idle();
        plan.acceleration = Some(acceleration);
        plan.steering = Steering::Face {
            direction: acceleration,
            target_angular_speed: 0,
            rule: FireRule::Boost,
        };
        plan.explode = contact.position.distance(sensors.position) < EXPLOSION_RANGE;
        plan
    }
}

} // verus!
