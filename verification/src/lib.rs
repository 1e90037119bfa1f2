//! Gameplay core of a small first-person demo: mouse-look orientation,
//! keyboard translation, projectile spawning with lifetime timers, a
//! wandering and shooting enemy, collision damage, a health bar, and an
//! adjustable field of view.
//!
//! All quantities are fixed-point integers: world positions and velocities
//! in "ticks" (`POS_SCALE` ticks per world unit), unit directions scaled by
//! `DIR_SCALE`, angles in microradians, and time in milliseconds.  The
//! rendering, physics and input layers live outside this crate and exchange
//! plain values with it.

pub mod ball;
pub mod clicker;
pub mod enemy;
pub mod entity;
pub mod movement;
pub mod sensitivity;
pub mod timer;
pub mod units;
pub mod view_model;
pub mod world_model;

use vstd::prelude::*;

verus! {

} // verus!
