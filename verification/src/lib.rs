//! Core simulation engine for a 2D wrap-around arcade shooter.
//!
//! All gameplay quantities are exact fixed-point integers:
//! positions in micro-units, time in milliseconds, angles in micro-radians,
//! velocities in micro-units per millisecond, and dimensionless fractions
//! (damping, control axes, unit headings) in milli-steps.
//!
//! [`units`] and [`trig`] hold the fixed-point kit; [`kinematics`],
//! [`collision`] and [`viewport`] the per-entity physics; [`input`],
//! [`player`], [`ship`], [`projectile`] and [`meteor`] the gameplay rules;
//! [`world`] the entity arena and the per-tick passes over it; and
//! [`app`], [`config`], [`loading`], [`sounds`] and [`splash`] the thin
//! decisions of the shell around the game.

pub mod app;
pub mod collision;
pub mod config;
pub mod loading;
pub mod sounds;
pub mod splash;
pub mod input;
pub mod rng;
pub mod kinematics;
pub mod meteor;
pub mod player;
pub mod projectile;
pub mod ship;
pub mod trig;
pub mod viewport;
pub mod world;
pub mod units;
