//! The ship: one of four variants, chosen once from the platform's class.

use vstd::prelude::*;
use crate::command::{BoostCommand, Plan, Steering};
use crate::cruiser::Cruiser;
use crate::fighter::Fighter;
use crate::frigate::Frigate;
use crate::missile::Missile;
use crate::radar::{
    reset, slice_scan, spec_reset, spec_slice_scan, RadarCommand, RadarSweepState,
};
use crate::sensor::{SensorSnapshot, ShipClass};
use crate::vector::Vector2;

verus! {

/// What a ship does while it has no contact to engage.
pub open spec fn spec_search(
    radar: RadarSweepState,
    sensors: SensorSnapshot,
    thrust: Vector2,
    steering: Steering,
) -> (RadarSweepState, Plan) {
    if radar.scans_remaining > 0 {
        let (next, command) = spec_slice_scan(radar, sensors);
        (
            next,
            Plan {
                radar: Some(command),
                acceleration: Some(thrust),
                boost: BoostCommand::Deactivate,
                steering,
                ..Plan::idle()
            },
        )
    } else {
        let (next, command) = spec_reset(radar);
        (
            next,
            Plan {
                radar: Some(command),
                acceleration: Some(thrust),
                steering,
                ..Plan::idle()
            },
        )
    }
}

/// A tick without a contact to engage. While the radar scans, it looks at
/// the next sector and the boost is switched off; where it has just lost its
/// track, it starts a sweep. Either way the ship keeps the thrust and the
/// steering given.
pub fn search(
    radar: &mut RadarSweepState,
    sensors: &SensorSnapshot,
    thrust: Vector2,
    steering: Steering,
) -> (plan: Plan)
    requires
        old(radar).wf(),
    ensures
        (*final(radar), plan) == spec_search(*old(radar), *sensors, thrust, steering),
        final(radar).wf(),
        plan.radar is Some,
        old(radar).is_tracking() ==> final(radar).is_scanning() && plan.radar->0 is Sweep,
        old(radar).is_scanning() ==> plan.radar->0 is Advance || plan.radar->0 is Acquire,
{
    let mut plan = Plan::idle();
    plan.acceleration = Some(thrust);
    plan.steering = steering;
    if radar.is_scanning() {
        plan.radar = Some(slice_scan(radar, sensors));
        plan.boost = BoostCommand::Deactivate;
    } else {
        plan.radar = Some(reset(radar));
    }
    plan
}

/// A ship of the fleet.
#[derive(Clone, Copy, Debug, PartialEq, Eq)]
pub enum Ship {
    Fighter(Fighter),
    Missile(Missile),
    Frigate(Frigate),
    Cruiser(Cruiser),
}

/// Why no ship could be made.
#[derive(Clone, Copy, Debug, PartialEq, Eq, Structural)]
pub enum ConfigurationError {
    /// The fleet has no ship for this class.
    UnknownClass { class: ShipClass },
}

impl Ship {
    /// The variant is well formed.
    pub open spec fn wf(self) -> bool {
        match self {
            Ship::Fighter(fighter) => fighter.wf(),
            Ship::Missile(missile) => missile.wf(),
            Ship::Frigate(frigate) => frigate.wf(),
            Ship::Cruiser(cruiser) => cruiser.wf(),
        }
    }

    /// Whether the ship is well formed.
    pub fn is_valid(&self) -> (valid: bool)
        ensures
            valid == self.wf(),
    {
        match self {
            Ship::Fighter(fighter) => fighter.is_valid(),
            Ship::Missile(missile) => missile.is_valid(),
            Ship::Frigate(frigate) => frigate.is_valid(),
            Ship::Cruiser(cruiser) => cruiser.is_valid(),
        }
    }

    /// The ship for a class, or none.
    pub open spec fn spec_new(class: ShipClass, sensors: SensorSnapshot) -> Option<Ship> {
        match class {
            ShipClass::Fighter => Some(Ship::Fighter(Fighter::spec_new())),
            ShipClass::Frigate => Some(Ship::Fighter(Fighter::spec_new())),
            ShipClass::Missile => Some(Ship::Missile(Missile::spec_new(sensors))),
            ShipClass::Torpedo => Some(Ship::Missile(Missile::spec_new(sensors))),
            ShipClass::Cruiser => Some(Ship::Cruiser(Cruiser::spec_new())),
            _ => None,
        }
    }

    /// The ship for a platform of the given class, and the radar command
    /// that starts its first sweep. Fighters and frigates fly as fighters,
    /// missiles and torpedoes as missiles, cruisers as cruisers. Any other
    /// class is an error: the fleet has no ship for it.
    pub fn new(class: ShipClass, sensors: &SensorSnapshot) -> (result: Result<
        (Ship, RadarCommand),
        ConfigurationError,
    >)
        ensures
            match result {
                Ok((ship, command)) => Ship::spec_new(class, *sensors) == Some(ship) && ship.wf()
                    && command == crate::fighter::spec_first_sweep(),
                Err(error) => Ship::spec_new(class, *sensors) is None && error == (
                ConfigurationError::UnknownClass { class }),
            },
    {
        match class {
            ShipClass::Fighter | ShipClass::Frigate => {
                let (fighter, command) = Fighter::new();
                Ok((Ship::Fighter(fighter), command))
            },
            ShipClass::Missile | ShipClass::Torpedo => {
                let (missile, command) = Missile::new(sensors);
                Ok((Ship::Missile(missile), command))
            },
            ShipClass::Cruiser => {
                let (cruiser, command) = Cruiser::new();
                Ok((Ship::Cruiser(cruiser), command))
            },
            _ => Err(ConfigurationError::UnknownClass { class }),
        }
    }

    /// The ship after a tick, and the plan of the tick.
    pub open spec fn spec_tick(self, sensors: SensorSnapshot) -> (Ship, Plan) {
        match self {
            Ship::Fighter(fighter) => {
                let (next, plan) = fighter.spec_tick(sensors);
                (Ship::Fighter(next), plan)
            },
            Ship::Missile(missile) => {
                let (next, plan) = missile.spec_tick(sensors);
                (Ship::Missile(next), plan)
            },
            Ship::Frigate(frigate) => {
                let (next, plan) = frigate.spec_tick(sensors);
                (Ship::Frigate(next), plan)
            },
            Ship::Cruiser(cruiser) => {
                let (next, plan) = cruiser.spec_tick(sensors);
                (Ship::Cruiser(next), plan)
            },
        }
    }

    /// One tick of the ship, whatever its variant.
    pub fn tick(&mut self, sensors: &SensorSnapshot) -> (plan: Plan)
        requires
            old(self).wf(),
        ensures
            (*final(self), plan) == old(self).spec_tick(*sensors),
            final(self).wf(),
    {
        match self {
            Ship::Fighter(fighter) => fighter.tick(sensors),
            Ship::Missile(missile) => missile.tick(sensors),
            Ship::Frigate(frigate) => frigate.tick(sensors),
            Ship::Cruiser(cruiser) => cruiser.tick(sensors),
        }
    }
}

} // verus!
