//! Mouse-look orientation and keyboard translation of the player.
//!
//! Orientation is yaw then pitch (roll stays zero), in microradians.  Yaw
//! is kept wrapped into `[0, TAU_URAD)`; pitch is clamped short of
//! straight up and straight down so the look direction never degenerates.

use vstd::prelude::*;

use crate::sensitivity::CameraSensitivity;
use crate::units::{clamp_i, Vec3Fp, DIR_SCALE};

verus! {

/// A full turn, in microradians.
pub const TAU_URAD: i64 = 6_283_185;

/// A quarter turn (straight up), rounded down, in microradians.
pub const HALF_PI_URAD: i64 = 1_570_796;

/// Pitch never passes this bound: a quarter turn less 0.01 rad.
pub const PITCH_LIMIT_URAD: i64 = 1_560_796;

/// Position ticks contributed per direction unit by one 0.3-unit key step.
pub const STEP_TICKS_PER_DIR: i64 = 150;

/// `a` wrapped into `[0, TAU_URAD)`.
pub open spec fn wrap_urad(a: int) -> int {
    a % (TAU_URAD as int)
}

/// The player's look direction: yaw in `[0, TAU_URAD)`, pitch within
/// `[-PITCH_LIMIT_URAD, PITCH_LIMIT_URAD]`, both in microradians.
#[derive(Clone, Copy, Debug, PartialEq, Eq, Structural)]
pub struct Orientation {
    pub yaw_urad: i64,
    pub pitch_urad: i64,
}

impl Orientation {
    pub open spec fn wf(self) -> bool {
        &&& 0 <= self.yaw_urad < TAU_URAD
        &&& -PITCH_LIMIT_URAD <= self.pitch_urad <= PITCH_LIMIT_URAD
    }

    /// Looking along negative z, level with the horizon.
    pub fn level() -> (o: Orientation)
        ensures
            o.yaw_urad == 0,
            o.pitch_urad == 0,
            o.wf(),
    {
        Orientation { yaw_urad: 0, pitch_urad: 0 }
    }
}

/// `r` is `x` wrapped into `[0, m)` and differs from `x` by the multiple
/// `k` of `m`, so it is exactly `x % m`.
proof fn lemma_wrap_witness(x: int, r: int, k: int, m: int)
    requires
        m > 0,
        r == x + k * m,
        0 <= r < m,
    ensures
        r == x % m,
{
    vstd::arithmetic::div_mod::lemma_mod_multiples_vanish(k, x, m);
    assert(m * k + x == x + k * m) by {
        vstd::arithmetic::mul::lemma_mul_is_commutative(m, k);
    };
    vstd::arithmetic::div_mod::lemma_small_mod(r as nat, m as nat);
}

/// The product of a mouse-count delta and a sensitivity fits in 64 bits.
proof fn lemma_count_times_sens_bounded(a: int, b: int)
    requires
        -0x8000_0000 <= a <= 0x7fff_ffff,
        0 <= b <= 0xffff_ffff,
    ensures
        -0x8000_0000_0000_0000 <= a * b <= 0x8000_0000_0000_0000,
{
    assert(-0x8000_0000_0000_0000 <= a * b <= 0x8000_0000_0000_0000) by (nonlinear_arith)
        requires
            -0x8000_0000 <= a <= 0x7fff_ffff,
            0 <= b <= 0xffff_ffff,
    ;
}

/// Turn the camera by the frame's accumulated mouse delta: yaw moves by
/// `-delta_x` counts times the x sensitivity and wraps, pitch moves by
/// `-delta_y` counts times the y sensitivity and is clamped just short of
/// a quarter turn.  A frame with no mouse motion leaves orientation alone.
pub fn move_player(o: &mut Orientation, delta_x: i32, delta_y: i32, sensitivity: &CameraSensitivity)
    requires
        old(o).wf(),
    ensures
        final(o).wf(),
        delta_x == 0 && delta_y == 0 ==> *final(o) == *old(o),
        delta_x != 0 || delta_y != 0 ==> {
            &&& final(o).yaw_urad == wrap_urad(old(o).yaw_urad - delta_x * sensitivity.x)
            &&& final(o).pitch_urad == clamp_i(
                old(o).pitch_urad - delta_y * sensitivity.y,
                -PITCH_LIMIT_URAD as int,
                PITCH_LIMIT_URAD as int,
            )
        },
{
    if delta_x == 0 && delta_y == 0 {
        return ;
    }
    proof {
        lemma_count_times_sens_bounded(delta_y as int, sensitivity.y as int);
        lemma_count_times_sens_bounded(delta_x as int, sensitivity.x as int);
    }
    let dy_urad: i128 = delta_y as i128 * sensitivity.y as i128;
    let pitch_target: i128 = o.pitch_urad as i128 - dy_urad;
    o.pitch_urad = if pitch_target < -PITCH_LIMIT_URAD as i128 {
        -PITCH_LIMIT_URAD
    } else if pitch_target > PITCH_LIMIT_URAD as i128 {
        PITCH_LIMIT_URAD
    } else {
        pitch_target as i64
    };
    let dx_urad: i128 = delta_x as i128 * sensitivity.x as i128;
    let yaw_target: i128 = o.yaw_urad as i128 - dx_urad;
    let tau: u128 = TAU_URAD as u128;
    let ghost x = old(o).yaw_urad - delta_x * sensitivity.x;
    if yaw_target >= 0 {
        let rem: u128 = yaw_target as u128 % tau;
        proof {
            vstd::arithmetic::div_mod::lemma_mod_bound(yaw_target as int, tau as int);
            vstd::arithmetic::div_mod::lemma_fundamental_div_mod(yaw_target as int, tau as int);
            lemma_wrap_witness(x, rem as int, -(yaw_target as int / tau as int), tau as int);
        }
        o.yaw_urad = rem as i64;
    } else {
        let neg: u128 = (-yaw_target) as u128;
        let rem: u128 = neg % tau;
        proof {
            vstd::arithmetic::div_mod::lemma_mod_bound(neg as int, tau as int);
            vstd::arithmetic::div_mod::lemma_fundamental_div_mod(neg as int, tau as int);
        }
        let ghost q = neg as int / tau as int;
        if rem == 0 {
            proof {
                lemma_wrap_witness(x, 0, q, tau as int);
            }
            o.yaw_urad = 0;
        } else {
            proof {
                lemma_wrap_witness(x, tau as int - rem, q + 1, tau as int);
            }
            o.yaw_urad = (tau - rem) as i64;
        }
    }
}

/// Pitch stays strictly between straight down and straight up: the clamp
/// bound itself sits 0.01 rad short of a quarter turn.
pub proof fn lemma_pitch_strictly_level(o: Orientation)
    requires
        o.wf(),
    ensures
        -HALF_PI_URAD < o.pitch_urad < HALF_PI_URAD,
{
}

/// Step the player 0.3 world units along the yaw-derived forward and right
/// axes for each held key: `w` forward, `s` back, `a` left, `d` right.
/// `sin_yaw_fp` and `cos_yaw_fp` are the sine and cosine of the yaw,
/// scaled by `DIR_SCALE`.  Two held keys add their full steps; height is
/// untouched.
pub fn translate_player(
    pos: &mut Vec3Fp,
    sin_yaw_fp: i64,
    cos_yaw_fp: i64,
    w: bool,
    a: bool,
    s: bool,
    d: bool,
)
    requires
        crate::units::pos_wf(*old(pos)),
        -DIR_SCALE <= sin_yaw_fp <= DIR_SCALE,
        -DIR_SCALE <= cos_yaw_fp <= DIR_SCALE,
    ensures
        final(pos).x == old(pos).x + (if w {
            -sin_yaw_fp * STEP_TICKS_PER_DIR
        } else {
            0
        }) + (if a {
            -cos_yaw_fp * STEP_TICKS_PER_DIR
        } else {
            0
        }) + (if d {
            cos_yaw_fp * STEP_TICKS_PER_DIR
        } else {
            0
        }) + (if s {
            sin_yaw_fp * STEP_TICKS_PER_DIR
        } else {
            0
        }),
        final(pos).z == old(pos).z + (if w {
            -cos_yaw_fp * STEP_TICKS_PER_DIR
        } else {
            0
        }) + (if a {
            sin_yaw_fp * STEP_TICKS_PER_DIR
        } else {
            0
        }) + (if d {
            -sin_yaw_fp * STEP_TICKS_PER_DIR
        } else {
            0
        }) + (if s {
            cos_yaw_fp * STEP_TICKS_PER_DIR
        } else {
            0
        }),
        final(pos).y == old(pos).y,
{
    let sin_step: i64 = sin_yaw_fp * STEP_TICKS_PER_DIR;
    let cos_step: i64 = cos_yaw_fp * STEP_TICKS_PER_DIR;
    if w {
        pos.x = pos.x - sin_step;
        pos.z = pos.z - cos_step;
    }
    if a {
        pos.x = pos.x - cos_step;
        pos.z = pos.z + sin_step;
    }
    if d {
        pos.x = pos.x + cos_step;
        pos.z = pos.z - sin_step;
    }
    if s {
        pos.x = pos.x + sin_step;
        pos.z = pos.z + cos_step;
    }
}

} // verus!
