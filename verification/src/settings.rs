//! Tuning constants, in millionths of their unit.

use vstd::prelude::*;
use crate::fixed::Fixed;

verus! {

/// Simulation ticks per second.
pub const TICKS_PER_SECOND: Fixed = 60_000_000;

/// Twice the square of the tick rate: the angular acceleration, per radian,
/// that closes an angle within one tick.
pub const ONE_TICK_GAIN: Fixed = 7_200_000_000;

/// Navigation gain of the proportional-navigation law.
pub const N_FACTOR: Fixed = 4_000_000;

/// Missiles are fired inside this range, whatever the bearing (metres).
pub const MISSILE_FIRE_DIST: Fixed = 6_000_000_000;

/// Missiles are fired inside this bearing, whatever the range: an eighth of a
/// turn.
pub const MISSILE_FIRE_ANGLE: Fixed = 785_398;

/// A missile boosts while its turning angle is below this: a thirty-second of
/// a turn.
pub const MISSILE_BOOST_ANGLE: Fixed = 196_350;

/// A missile detonates inside this range (metres).
pub const EXPLOSION_RANGE: Fixed = 30_000_000;

/// Muzzle speed of the fighter's gun and the frigate's turrets (m/s).
pub const BULLET_SPEED: Fixed = 1_000_000_000;

/// Muzzle speed of the cruiser's turret (m/s).
pub const CRUISER_BULLET_SPEED: Fixed = 2_000_000_000;

/// Muzzle speed of the frigate's main gun (m/s).
pub const RAILGUN_BULLET_SPEED: Fixed = 4_000_000_000;

/// The lead solver stops after this many passes at the latest. Estimates
/// that converge at an ordinary pace are within the tolerance well before;
/// the limit ends the runs that converge slowly or not at all.
pub const MAX_PASSES: u32 = 64;

/// The lead solver stops when two successive estimates are closer than this
/// factor times the target's angular size.
pub const PREDICTION_ACCURACY_FACTOR: Fixed = 1_000_000;

/// A fighter dogfights inside this range (metres).
pub const C_DIST: Fixed = 10_000_000_000;

/// A fighter dogfights only while its gun reloads within this many ticks.
pub const GUN_READY_TICKS: u32 = 5;

/// Below this range the closing thrust is scaled down (metres).
pub const MAX_FORWARD_DIST: Fixed = 5_000_000_000;

/// Below this range sideways thrust sets in (metres).
pub const MIN_LATERAL_DIST: Fixed = 500_000_000;

/// No thrust towards a target further off the nose than this: a quarter
/// turn, so that the ship does not thrust towards a target behind it.
pub const MAX_CONE_ANGLE: Fixed = 1_570_796;

/// Diameter assumed of a target (metres).
pub const ENEMY_SIZE: Fixed = 25_000_000;

/// Distance of a frigate's turrets from its centre line (metres).
pub const TURRET_OFFSET: Fixed = 10_000_000;

/// Share of the target's distance added to the tracking window.
pub const TARGET_SCAN_RANGE_MULT: Fixed = 20_000;

/// Seconds of relative speed added to the tracking window.
pub const TARGET_D_V_MULT: Fixed = 40_000;

/// Sectors of a full radar sweep.
pub const SCAN_SECTIONS: u32 = 10;

/// Share of the target's angular travel, over the time it takes to stop
/// turning, by which the turn controller leads it.
pub const ANGULAR_SPEED_PREDICTION_FACTOR: Fixed = 200_000;

} // verus!
