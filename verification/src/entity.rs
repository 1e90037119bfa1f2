//! Entity markers and per-entity data: the player, its health, a
//! projectile's damage, and the health-bar fill transform.

use vstd::prelude::*;

verus! {

/// Marks the player avatar.
#[derive(Clone, Copy, Debug, PartialEq, Eq, Structural)]
pub struct Player;

/// Hit points of the player.  The stored value is not clamped: damage may
/// drive `current` below zero; only the bar display clamps.
#[derive(Clone, Copy, Debug, PartialEq, Eq, Structural)]
pub struct Health {
    pub current: i32,
    pub max: i32,
}

/// The foreground quad of the health bar: a horizontal scale and the
/// offset that keeps its left edge anchored as it shrinks.
/// `scale_fp` is scaled by `crate::view_model::FILL_SCALE`; `offset_ticks`
/// is in position ticks.
#[derive(Clone, Copy, Debug, PartialEq, Eq, Structural)]
pub struct HealthBarFill {
    pub scale_fp: i64,
    pub offset_ticks: i64,
}

/// A projectile able to hurt the player.
#[derive(Clone, Copy, Debug, PartialEq, Eq, Structural)]
pub struct Projectile {
    pub damage: i32,
}

} // verus!
