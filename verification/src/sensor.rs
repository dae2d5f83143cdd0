//! What the ship knows at the start of a tick.

use vstd::prelude::*;
use crate::fixed::Fixed;
use crate::vector::Vector2;

verus! {

/// The classes of object that the simulation knows.
#[derive(Clone, Copy, Debug, PartialEq, Eq, Structural)]
pub enum ShipClass {
    Fighter,
    Frigate,
    Cruiser,
    Asteroid,
    Target,
    Missile,
    Torpedo,
    Unknown,
}

/// What the radar saw of another object, this tick.
#[derive(Clone, Copy, Debug, PartialEq, Eq, Structural)]
pub struct Contact {
    pub class: ShipClass,
    pub position: Vector2,
    pub velocity: Vector2,
    /// The angle of the line from the ship to the contact.
    pub bearing: Fixed,
}

/// The ship's own state, its limits and its one radar contact, sampled once
/// at the start of a tick.
#[derive(Clone, Copy, Debug)]
pub struct SensorSnapshot {
    pub position: Vector2,
    pub velocity: Vector2,
    /// The angle of the nose.
    pub heading: Fixed,
    /// The cosine and the sine of `heading`.
    pub heading_direction: Vector2,
    pub angular_velocity: Fixed,
    pub max_forward_acceleration: Fixed,
    pub max_backward_acceleration: Fixed,
    pub max_lateral_acceleration: Fixed,
    pub max_angular_acceleration: Fixed,
    /// Where the radar beam points.
    pub radar_heading: Fixed,
    /// How wide the radar beam is.
    pub radar_width: Fixed,
    /// Ticks until the gun (weapon 0) can fire again.
    pub gun_reload_ticks: u32,
    /// Ticks until the missile launcher (weapon 1) can fire again.
    pub missile_reload_ticks: u32,
    pub contact: Option<Contact>,
}

} // verus!
