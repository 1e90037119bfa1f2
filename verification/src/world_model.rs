//! The world-model camera and its player-adjustable field of view,
//! stepped one degree per frame while an arrow key is held and clamped to
//! `[FOV_MIN_DEG, FOV_MAX_DEG]` — it never leaves that range, however
//! long a key is held.

use vstd::prelude::*;

use crate::units::Vec3Fp;

verus! {

/// Lower clamp of the world camera's field of view, in degrees.
pub const FOV_MIN_DEG: u32 = 20;

/// Upper clamp of the world camera's field of view, in degrees.
pub const FOV_MAX_DEG: u32 = 160;

/// The world camera's field of view at startup, in degrees.
pub const FOV_INITIAL_DEG: u32 = 90;

/// The camera that draws everything but the player's own body, with its
/// adjustable field of view in whole degrees.
#[derive(Clone, Copy, Debug, PartialEq, Eq, Structural)]
pub struct WorldModelCamera {
    pub fov_deg: u32,
}

impl WorldModelCamera {
    pub open spec fn wf(self) -> bool {
        FOV_MIN_DEG <= self.fov_deg <= FOV_MAX_DEG
    }

    /// The camera as spawned, at 90 degrees.
    pub fn new() -> (c: WorldModelCamera)
        ensures
            c.fov_deg == FOV_INITIAL_DEG,
            c.wf(),
    {
        WorldModelCamera { fov_deg: FOV_INITIAL_DEG }
    }
}

/// A fixed rigid body of the level: its position, the half-extents of
/// its box collider (both in position ticks), and its surface friction in
/// thousandths where it overrides the engine default.
#[derive(Clone, Copy, Debug, PartialEq, Eq, Structural)]
pub struct StaticBody {
    pub translation: Vec3Fp,
    pub collider_half_extents: Vec3Fp,
    pub friction_milli: Option<u32>,
}

/// The floor of the level: a thin 200-by-200-unit slab at the origin
/// with full friction.
pub open spec fn floor_body() -> StaticBody {
    StaticBody {
        translation: Vec3Fp { x: 0i64, y: 0i64, z: 0i64 },
        collider_half_extents: Vec3Fp {
            x: 50_000_000_000i64,
            y: 500_000i64,
            z: 50_000_000_000i64,
        },
        friction_milli: Some(1000u32),
    }
}

/// The lower of the two fixed cubes, resting on the floor.
pub open spec fn low_cube_body() -> StaticBody {
    StaticBody {
        translation: Vec3Fp { x: 0i64, y: 125_000_000i64, z: -1_500_000_000i64 },
        collider_half_extents: Vec3Fp { x: 500_000_000i64, y: 125_000_000i64, z: 250_000_000i64 },
        friction_milli: None,
    }
}

/// The raised cube.
pub open spec fn top_cube_body() -> StaticBody {
    StaticBody {
        translation: Vec3Fp { x: 375_000_000i64, y: 875_000_000i64, z: 0i64 },
        collider_half_extents: Vec3Fp { x: 500_000_000i64, y: 125_000_000i64, z: 250_000_000i64 },
        friction_milli: None,
    }
}

/// The level's static geometry, spawned once and never mutated: the
/// floor, then the two fixed cubes.
pub fn spawn_world_model() -> (bodies: Vec<StaticBody>)
    ensures
        bodies@ =~= seq![floor_body(), low_cube_body(), top_cube_body()],
{
    let mut bodies: Vec<StaticBody> = Vec::new();
    bodies.push(
        StaticBody {
            translation: Vec3Fp { x: 0, y: 0, z: 0 },
            collider_half_extents: Vec3Fp { x: 50_000_000_000, y: 500_000, z: 50_000_000_000 },
            friction_milli: Some(1000),
        },
    );
    bodies.push(
        StaticBody {
            translation: Vec3Fp { x: 0, y: 125_000_000, z: -1_500_000_000 },
            collider_half_extents: Vec3Fp { x: 500_000_000, y: 125_000_000, z: 250_000_000 },
            friction_milli: None,
        },
    );
    bodies.push(
        StaticBody {
            translation: Vec3Fp { x: 375_000_000, y: 875_000_000, z: 0 },
            collider_half_extents: Vec3Fp { x: 500_000_000, y: 125_000_000, z: 250_000_000 },
            friction_milli: None,
        },
    );
    bodies
}

/// A field of view after one frame of key input: arrow-up narrows by one
/// degree down to the minimum, then arrow-down widens by one degree up to
/// the maximum.
pub open spec fn fov_after(fov: int, up_held: bool, down_held: bool) -> int {
    let narrowed = if up_held {
        if fov - 1 < FOV_MIN_DEG {
            FOV_MIN_DEG as int
        } else {
            fov - 1
        }
    } else {
        fov
    };
    if down_held {
        if narrowed + 1 > FOV_MAX_DEG {
            FOV_MAX_DEG as int
        } else {
            narrowed + 1
        }
    } else {
        narrowed
    }
}

/// Apply one frame of the arrow keys to the world camera's field of view.
pub fn change_fov(camera: &mut WorldModelCamera, up_held: bool, down_held: bool)
    requires
        old(camera).wf(),
    ensures
        final(camera).fov_deg == fov_after(old(camera).fov_deg as int, up_held, down_held),
        final(camera).wf(),
{
    if up_held {
        camera.fov_deg = camera.fov_deg - 1;
        if camera.fov_deg < FOV_MIN_DEG {
            camera.fov_deg = FOV_MIN_DEG;
        }
    }
    if down_held {
        camera.fov_deg = camera.fov_deg + 1;
        if camera.fov_deg > FOV_MAX_DEG {
            camera.fov_deg = FOV_MAX_DEG;
        }
    }
}

/// A field of view after a whole run of frames, each frame giving the
/// levels of the two arrow keys.
pub open spec fn run_fov(fov: int, keys: Seq<(bool, bool)>) -> int
    decreases keys.len(),
{
    if keys.len() == 0 {
        fov
    } else {
        run_fov(fov_after(fov, keys[0].0, keys[0].1), keys.skip(1))
    }
}

/// The field of view never leaves its clamp range, however the arrow
/// keys are held across any run of frames.
pub proof fn lemma_fov_stays_in_range(fov: int, keys: Seq<(bool, bool)>)
    requires
        FOV_MIN_DEG <= fov <= FOV_MAX_DEG,
    ensures
        FOV_MIN_DEG <= run_fov(fov, keys) <= FOV_MAX_DEG,
    decreases keys.len(),
{
    if keys.len() > 0 {
        lemma_fov_stays_in_range(fov_after(fov, keys[0].0, keys[0].1), keys.skip(1));
    }
}

} // verus!
