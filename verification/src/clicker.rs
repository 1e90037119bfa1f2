//! Left-click handling: a ball is spawned on each strictly-increasing
//! edge of the left mouse button — once per press, never while held.
//! A right click spawns nothing.
//!
//! The spawn pose and launch velocity follow the player's look direction:
//! the caller passes the forward vector `(-sin yaw, sin pitch * cos pitch,
//! -cos yaw)` in `DIR_SCALE` fixed point, and the ball appears one world
//! unit along it, flying at 15 units per second.

use vstd::prelude::*;

use crate::ball::{standard_ball, BallBundle};
use crate::units::{advance, dir_wf, pos_wf, scale_dir, Vec3Fp};

verus! {

/// Position ticks contributed per direction unit by the one-unit spawn
/// distance.
pub const SPAWN_TICKS_PER_DIR: i64 = 500;

/// Position ticks per second contributed per direction unit by the
/// 15-unit-per-second launch speed.
pub const LAUNCH_TICKS_PER_DIR: i64 = 7500;

/// The left-button level seen last frame, for edge detection.
#[derive(Clone, Copy, Debug, PartialEq, Eq, Structural)]
pub struct ClickTracker {
    pub left_held: bool,
}

impl ClickTracker {
    /// Before the first frame no button is held.
    pub fn new() -> (t: ClickTracker)
        ensures
            !t.left_held,
    {
        ClickTracker { left_held: false }
    }
}

/// Where a click's ball appears: one unit along the look direction.
pub open spec fn click_spawn_pos(player_pos: Vec3Fp, aim: Vec3Fp) -> Vec3Fp {
    advance(player_pos, aim, SPAWN_TICKS_PER_DIR as int)
}

/// How fast a click's ball leaves: 15 units per second along the look
/// direction.
pub open spec fn click_velocity(aim: Vec3Fp) -> Vec3Fp {
    scale_dir(aim, LAUNCH_TICKS_PER_DIR as int)
}

/// Handle this frame's mouse-button levels.  Exactly when the left button
/// went from released to pressed, a ball is spawned one unit along `aim`
/// with the standard shape and lifetime; holding the button spawns
/// nothing further, and the right button never spawns.
pub fn log_mouse_clicks(
    tracker: &mut ClickTracker,
    left_down: bool,
    right_down: bool,
    player_pos: &Vec3Fp,
    aim: &Vec3Fp,
) -> (spawned: Option<BallBundle>)
    requires
        pos_wf(*player_pos),
        dir_wf(*aim),
    ensures
        final(tracker).left_held == left_down,
        spawned == if left_down && !old(tracker).left_held {
            Some(
                crate::ball::standard_ball_spec(
                    click_spawn_pos(*player_pos, *aim),
                    click_velocity(*aim),
                ),
            )
        } else {
            None::<BallBundle>
        },
        spawned matches Some(b) ==> b.wf(),
{
    let edge = left_down && !tracker.left_held;
    tracker.left_held = left_down;
    // A right click is only reported by the driver; it spawns nothing.
    let _ = right_down;
    if edge {
        let transform = Vec3Fp {
            x: player_pos.x + aim.x * SPAWN_TICKS_PER_DIR,
            y: player_pos.y + aim.y * SPAWN_TICKS_PER_DIR,
            z: player_pos.z + aim.z * SPAWN_TICKS_PER_DIR,
        };
        let velocity = Vec3Fp {
            x: aim.x * LAUNCH_TICKS_PER_DIR,
            y: aim.y * LAUNCH_TICKS_PER_DIR,
            z: aim.z * LAUNCH_TICKS_PER_DIR,
        };
        Some(standard_ball(transform, velocity))
    } else {
        None
    }
}

/// Balls spawned over a run of frames, folding the spawn rule above:
/// one per frame whose left level is down while the tracked level was up.
pub open spec fn spawn_count(prev_held: bool, presses: Seq<bool>) -> int
    decreases presses.len(),
{
    if presses.len() == 0 {
        0
    } else {
        (if presses[0] && !prev_held {
            1int
        } else {
            0int
        }) + spawn_count(presses[0], presses.skip(1))
    }
}

/// Strictly-increasing edges in a run of left-button levels: frames whose
/// level is down while the previous frame's level (or `prev_held` before
/// the first frame) was up.
pub open spec fn rising_edges(prev_held: bool, presses: Seq<bool>) -> int
    decreases presses.len(),
{
    if presses.len() == 0 {
        0
    } else {
        rising_edges(prev_held, presses.drop_last()) + (if presses.last() && !(if presses.len()
            == 1 {
            prev_held
        } else {
            presses[presses.len() - 2]
        }) {
            1int
        } else {
            0int
        })
    }
}

/// Over any run of frames, the number of balls the click handler spawns
/// equals the number of strictly-increasing left-button edges in the run.
pub proof fn lemma_spawns_equal_rising_edges(prev_held: bool, presses: Seq<bool>)
    ensures
        spawn_count(prev_held, presses) == rising_edges(prev_held, presses),
    decreases presses.len(),
{
    if presses.len() == 0 {
    } else if presses.len() == 1 {
        assert(presses.skip(1) =~= Seq::<bool>::empty());
        assert(presses.drop_last() =~= Seq::<bool>::empty());
        assert(spawn_count(prev_held, presses) == (if presses[0] && !prev_held {
            1int
        } else {
            0int
        }) + spawn_count(presses[0], presses.skip(1)));
        assert(rising_edges(prev_held, presses) == rising_edges(prev_held, presses.drop_last()) + (
        if presses.last() && !prev_held {
            1int
        } else {
            0int
        }));
    } else {
        let n = presses.len() as int;
        let p0 = presses[0];
        let tail = presses.skip(1);
        let front = presses.drop_last();
        lemma_spawns_equal_rising_edges(p0, tail);
        lemma_spawns_equal_rising_edges(p0, tail.drop_last());
        lemma_spawns_equal_rising_edges(prev_held, front);
        assert(front.skip(1) =~= tail.drop_last());
        assert(front[0] == p0);
        assert(tail.last() == presses.last());
        let e0: int = if p0 && !prev_held {
            1
        } else {
            0
        };
        let e_last: int = if presses.last() && !(if n == 2 {
            p0
        } else {
            presses[n - 2]
        }) {
            1
        } else {
            0
        };
        if n >= 3 {
            assert(tail[tail.len() - 2] == presses[n - 2]);
        }
        assert(rising_edges(p0, tail) == rising_edges(p0, tail.drop_last()) + e_last);
        assert(spawn_count(prev_held, presses) == e0 + spawn_count(p0, tail));
        assert(spawn_count(prev_held, front) == e0 + spawn_count(p0, tail.drop_last()));
        assert(rising_edges(prev_held, presses) == rising_edges(prev_held, front) + e_last);
    }
}

} // verus!
