//! Guidance, fire control and radar scheduling for an autonomous ship.
//!
//! The ship sees the world through a narrow, steerable radar and, once per
//! simulation tick, decides where to point the radar, where to thrust, how
//! hard to turn and which weapons to fire. This crate holds those decisions:
//!
//! - [`radar`]: the sweep scheduler, which finds a target with a sweep of the
//!   full circle and then keeps a narrow beam on it;
//! - [`estimator`]: the target's acceleration from two successive velocities;
//! - [`ballistics`]: the lead point for a projectile of finite speed;
//! - [`navigation`]: proportional navigation, the dogfight policy, the
//!   thrusters' envelope and the turn controller;
//! - [`fighter`], [`missile`], [`frigate`], [`cruiser`] and [`ship`]: the
//!   four variants of the ship and what each does in a tick;
//! - [`command`]: what a tick hands to the actuators.
//!
//! All arithmetic is in fixed point: a quantity is an `i64` that counts
//! millionths of a metre, a second or a radian (see [`fixed`]). Results are
//! rounded towards zero and stick at the bounds of `i64`, so that no function
//! of this crate can overflow, divide by zero or otherwise fail, whatever the
//! sensors report. Rounding towards zero never makes a vector longer, which
//! is what the bounds on commanded accelerations rest on.
//!
//! The crate has no trigonometric functions. Where a decision needs the
//! cosine and sine of the heading, the caller supplies them with the sensor
//! snapshot; where it needs the angle of a vector that the crate has
//! computed, the tick is split in two steps (see [`command`]).

pub mod angle;
pub mod ballistics;
pub mod command;
pub mod cruiser;
pub mod estimator;
pub mod fighter;
pub mod fixed;
pub mod frigate;
pub mod missile;
pub mod navigation;
pub mod radar;
pub mod sensor;
pub mod settings;
pub mod ship;
pub mod utility;
pub mod vector;
