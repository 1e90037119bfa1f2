//! The health-bar overlay of the view model: each frame the foreground
//! quad is rescaled to the clamped health ratio and shifted so that its
//! left edge stays anchored to the bar's left side.

use vstd::prelude::*;

use crate::entity::{Health, HealthBarFill, Player};
use crate::movement::Orientation;
use crate::sensitivity::CameraSensitivity;
use crate::units::Vec3Fp;
use crate::world_model::WorldModelCamera;

verus! {

/// Fixed field of view of the overlay camera that draws the player's own
/// body, in degrees; unlike the world camera's it never changes.
pub const VIEW_MODEL_FOV_DEG: u32 = 70;

/// Fixed-point scale of the bar fill ratio: this value means a full bar.
pub const FILL_SCALE: i64 = 1_000_000;

/// Half the width of the health bar (0.2 world units), in position ticks.
pub const BAR_HALF_WIDTH_TICKS: i64 = 100_000_000;

/// The fill ratio of the bar: `current / max` clamped to `[0, 1]`,
/// scaled by `FILL_SCALE`.
pub open spec fn bar_scale(h: Health) -> int {
    crate::units::clamp_i(h.current as int, 0, h.max as int) * FILL_SCALE / h.max as int
}

/// The horizontal offset of the fill, `(ratio - 1) * half_width`: zero for
/// a full bar, minus half the bar's width for an empty one.
pub open spec fn bar_offset(h: Health) -> int {
    -((FILL_SCALE - bar_scale(h)) * BAR_HALF_WIDTH_TICKS as int / FILL_SCALE as int)
}

/// Recompute the fill quad from the current health.
pub fn update_health_bar(health: &Health, fill: &mut HealthBarFill)
    requires
        health.max >= 1,
    ensures
        final(fill).scale_fp == bar_scale(*health),
        final(fill).offset_ticks == bar_offset(*health),
{
    let clamped: i32 = if health.current < 0 {
        0
    } else if health.current > health.max {
        health.max
    } else {
        health.current
    };
    let scale: u64 = (clamped as u64 * FILL_SCALE as u64) / health.max as u64;
    assert(scale == bar_scale(*health)) by {
        assert(clamped == crate::units::clamp_i(health.current as int, 0, health.max as int));
    };
    assert(scale <= FILL_SCALE) by {
        vstd::arithmetic::div_mod::lemma_div_is_ordered(
            clamped as int * FILL_SCALE as int,
            health.max as int * FILL_SCALE as int,
            health.max as int,
        );
        vstd::arithmetic::mul::lemma_mul_inequality(
            clamped as int,
            health.max as int,
            FILL_SCALE as int,
        );
        vstd::arithmetic::div_mod::lemma_div_multiples_vanish(
            FILL_SCALE as int,
            health.max as int,
        );
    };
    let shortfall: u64 = FILL_SCALE as u64 - scale;
    let offset: i64 = -(((shortfall * BAR_HALF_WIDTH_TICKS as u64) / FILL_SCALE as u64) as i64);
    fill.scale_fp = scale as i64;
    fill.offset_ticks = offset;
}

/// Everything the player entity starts with: full health out of ten, one
/// unit above the origin looking level along negative z, default mouse
/// sensitivity, the adjustable world camera at its initial field of view,
/// and a full health bar.  The fixed-view overlay camera and the arm mesh
/// carry no gameplay state beyond `VIEW_MODEL_FOV_DEG`.
pub struct PlayerRig {
    pub player: Player,
    pub health: Health,
    pub transform: Vec3Fp,
    pub orientation: Orientation,
    pub sensitivity: CameraSensitivity,
    pub world_camera: WorldModelCamera,
    pub fill: HealthBarFill,
}

/// The player rig as spawned at startup.
pub fn spawn_view_model() -> (rig: PlayerRig)
    ensures
        rig.health == (Health { current: 10, max: 10 }),
        rig.transform == (Vec3Fp { x: 0i64, y: crate::units::POS_SCALE, z: 0i64 }),
        rig.orientation == (Orientation { yaw_urad: 0i64, pitch_urad: 0i64 }),
        rig.sensitivity.x == 3000 && rig.sensitivity.y == 2000,
        rig.world_camera.fov_deg == crate::world_model::FOV_INITIAL_DEG,
        rig.world_camera.wf(),
        rig.fill.scale_fp == bar_scale(rig.health),
        rig.fill.offset_ticks == bar_offset(rig.health),
        rig.fill.scale_fp == FILL_SCALE && rig.fill.offset_ticks == 0,
        crate::units::pos_wf(rig.transform),
        rig.orientation.wf(),
{
    let health = Health { current: 10, max: 10 };
    let mut fill = HealthBarFill { scale_fp: 0, offset_ticks: 0 };
    update_health_bar(&health, &mut fill);
    PlayerRig {
        player: Player,
        health,
        transform: Vec3Fp { x: 0, y: crate::units::POS_SCALE, z: 0 },
        orientation: Orientation::level(),
        sensitivity: CameraSensitivity::default(),
        world_camera: WorldModelCamera::new(),
        fill,
    }
}

/// The fill never leaves the bar: its scale stays within `[0, 1]` and its
/// offset within `[-half_width, 0]`, whatever the stored health value is.
pub proof fn lemma_bar_fill_in_range(h: Health)
    requires
        h.max >= 1,
    ensures
        0 <= bar_scale(h) <= FILL_SCALE,
        -BAR_HALF_WIDTH_TICKS <= bar_offset(h) <= 0,
{
    let c = crate::units::clamp_i(h.current as int, 0, h.max as int);
    vstd::arithmetic::div_mod::lemma_div_pos_is_pos(c * FILL_SCALE as int, h.max as int);
    vstd::arithmetic::div_mod::lemma_div_is_ordered(
        c * FILL_SCALE as int,
        h.max as int * FILL_SCALE as int,
        h.max as int,
    );
    vstd::arithmetic::mul::lemma_mul_inequality(c, h.max as int, FILL_SCALE as int);
    vstd::arithmetic::div_mod::lemma_div_multiples_vanish(FILL_SCALE as int, h.max as int);
    let s = bar_scale(h);
    vstd::arithmetic::div_mod::lemma_div_pos_is_pos(
        (FILL_SCALE - s) * BAR_HALF_WIDTH_TICKS as int,
        FILL_SCALE as int,
    );
    vstd::arithmetic::div_mod::lemma_div_is_ordered(
        (FILL_SCALE - s) * BAR_HALF_WIDTH_TICKS as int,
        FILL_SCALE as int * BAR_HALF_WIDTH_TICKS as int,
        FILL_SCALE as int,
    );
    vstd::arithmetic::mul::lemma_mul_inequality(
        FILL_SCALE - s,
        FILL_SCALE as int,
        BAR_HALF_WIDTH_TICKS as int,
    );
    vstd::arithmetic::div_mod::lemma_div_multiples_vanish(
        BAR_HALF_WIDTH_TICKS as int,
        FILL_SCALE as int,
    );
}

} // verus!
