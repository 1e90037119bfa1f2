//! Fixed-point scales and the integer 3-vector used throughout the crate.
//!
//! A world unit is `POS_SCALE` position ticks.  The scale is chosen so that
//! every rate in the game is a whole number of ticks: a key press moves the
//! player 0.3 units (`STEP_TICKS_PER_DIR` ticks per direction unit), the
//! enemy drifts 2 units per second (one tick per direction unit per
//! millisecond), and the launch speeds of 15 and 20 units per second are
//! whole tick counts as well.  Unit directions are scaled by `DIR_SCALE`.

use vstd::prelude::*;

verus! {

/// Position ticks per world unit.
pub const POS_SCALE: i64 = 500_000_000;

/// Fixed-point scale of unit direction vectors.
pub const DIR_SCALE: i64 = 1_000_000;

/// Positions handed to the library stay within this many ticks per axis,
/// which leaves room in an `i64` for every per-frame increment.
pub const POS_LIMIT: i64 = 4_000_000_000_000_000_000;

/// A 3-vector of fixed-point coordinates: position or velocity in ticks,
/// or a direction scaled by `DIR_SCALE`.
#[derive(Clone, Copy, Debug, PartialEq, Eq, Structural)]
pub struct Vec3Fp {
    pub x: i64,
    pub y: i64,
    pub z: i64,
}

/// The components describe (at most) a unit direction.
pub open spec fn dir_wf(v: Vec3Fp) -> bool {
    &&& -DIR_SCALE <= v.x <= DIR_SCALE
    &&& -DIR_SCALE <= v.y <= DIR_SCALE
    &&& -DIR_SCALE <= v.z <= DIR_SCALE
}

/// The components stay within the supported playing volume.
pub open spec fn pos_wf(v: Vec3Fp) -> bool {
    &&& -POS_LIMIT <= v.x <= POS_LIMIT
    &&& -POS_LIMIT <= v.y <= POS_LIMIT
    &&& -POS_LIMIT <= v.z <= POS_LIMIT
}

/// `v` clamped to `[lo, hi]`.
pub open spec fn clamp_i(v: int, lo: int, hi: int) -> int {
    if v < lo {
        lo
    } else if v > hi {
        hi
    } else {
        v
    }
}

/// The point `k` direction units along `dir` from `p`, in ticks:
/// each direction unit contributes `k` ticks per `DIR_SCALE` of direction.
pub open spec fn advance(p: Vec3Fp, dir: Vec3Fp, k: int) -> Vec3Fp {
    Vec3Fp { x: (p.x + dir.x * k) as i64, y: (p.y + dir.y * k) as i64, z: (p.z + dir.z * k) as i64 }
}

/// `dir` scaled by `k` ticks per direction unit.
pub open spec fn scale_dir(dir: Vec3Fp, k: int) -> Vec3Fp {
    Vec3Fp { x: (dir.x * k) as i64, y: (dir.y * k) as i64, z: (dir.z * k) as i64 }
}

/// Bounds on two nonnegative factors bound their product.
pub proof fn lemma_mul_le(a: int, b: int, c: int, d: int)
    requires
        0 <= a <= c,
        0 <= b <= d,
    ensures
        0 <= a * b <= c * d,
{
    assert(0 <= a * b <= c * d) by (nonlinear_arith)
        requires
            0 <= a <= c,
            0 <= b <= d,
    ;
}

/// A bound on a factor's magnitude and on a nonnegative cofactor bound
/// the product's magnitude.
pub proof fn lemma_mul_bounds_signed(a: int, b: int, cap_a: int, cap_b: int)
    requires
        -cap_a <= a <= cap_a,
        0 <= b <= cap_b,
    ensures
        -(cap_a * cap_b) <= a * b <= cap_a * cap_b,
{
    assert(-(cap_a * cap_b) <= a * b <= cap_a * cap_b) by (nonlinear_arith)
        requires
            -cap_a <= a <= cap_a,
            0 <= b <= cap_b,
    ;
}

/// `r` is the integer square root of `n`, rounded down.
pub open spec fn is_sqrt_floor(n: int, r: int) -> bool {
    &&& 0 <= r
    &&& r * r <= n
    &&& n < (r + 1) * (r + 1)
}

/// The integer square root of `n`, rounded down.
pub open spec fn sqrt_floor(n: int) -> int {
    choose|r: int| is_sqrt_floor(n, r)
}

/// No two integers both are the rounded-down square root of `n`.
pub proof fn lemma_sqrt_floor_unique(n: int, a: int, b: int)
    requires
        is_sqrt_floor(n, a),
        is_sqrt_floor(n, b),
    ensures
        a == b,
{
    assert(a == b) by (nonlinear_arith)
        requires
            0 <= a,
            a * a <= n,
            n < (a + 1) * (a + 1),
            0 <= b,
            b * b <= n,
            n < (b + 1) * (b + 1),
    ;
}

/// Any witness settles what `sqrt_floor(n)` is.
pub proof fn lemma_sqrt_floor_is(n: int, r: int)
    requires
        is_sqrt_floor(n, r),
    ensures
        sqrt_floor(n) == r,
{
    let c = choose|s: int| is_sqrt_floor(n, s);
    assert(is_sqrt_floor(n, c));
    lemma_sqrt_floor_unique(n, c, r);
}

/// A coordinate `d` of a vector of length `len`, rescaled so that the
/// whole vector has length `num`: the magnitude of `d * num / len`,
/// rounded down, with `d`'s sign.
pub open spec fn scaled_ratio(d: int, num: int, len: int) -> int {
    if d >= 0 {
        d * num / len
    } else {
        -((-d) * num / len)
    }
}

/// Rescale the coordinate `d` of a vector of length `len` to the
/// corresponding coordinate of the parallel vector of length `num`.  The
/// result never exceeds `num` in magnitude.
pub fn scale_toward(d: i64, num: i64, len: u64) -> (r: i64)
    requires
        len >= 1,
        num >= 0,
        -(len as int) <= d as int <= len as int,
    ensures
        r as int == scaled_ratio(d as int, num as int, len as int),
        -num <= r <= num,
{
    let a: u64 = if d >= 0 {
        d as u64
    } else {
        (-(d as i128)) as u64
    };
    proof {
        lemma_mul_le(a as int, num as int, u64::MAX as int, i64::MAX as int);
    }
    let mag: u128 = (a as u128) * (num as u128) / (len as u128);
    proof {
        vstd::arithmetic::mul::lemma_mul_inequality(a as int, len as int, num as int);
        vstd::arithmetic::div_mod::lemma_div_is_ordered(
            a as int * num as int,
            len as int * num as int,
            len as int,
        );
        vstd::arithmetic::div_mod::lemma_div_multiples_vanish(num as int, len as int);
        vstd::arithmetic::mul::lemma_mul_is_commutative(len as int, num as int);
        vstd::arithmetic::div_mod::lemma_div_pos_is_pos(a as int * num as int, len as int);
    }
    if d >= 0 {
        mag as i64
    } else {
        -(mag as i64)
    }
}

/// A coordinate whose square is within `n` stays within the rounded-down
/// square root of `n`.
pub proof fn lemma_component_within_len(d: int, n: int, len: int)
    requires
        d * d <= n,
        is_sqrt_floor(n, len),
    ensures
        -len <= d <= len,
{
    assert(-len <= d <= len) by (nonlinear_arith)
        requires
            d * d <= n,
            0 <= len,
            n < (len + 1) * (len + 1),
    ;
}

/// The integer square root of `n`, rounded down, by bisection.
pub fn isqrt_u128(n: u128) -> (r: u64)
    ensures
        is_sqrt_floor(n as int, r as int),
        sqrt_floor(n as int) == r as int,
{
    let cap: u128 = 0xffff_ffff_ffff_ffff;
    let mut lo: u128 = 0;
    let mut hi: u128 = if n < cap {
        n
    } else {
        cap
    };
    proof {
        if n < cap {
            assert(n < (n + 1) * (n + 1)) by (nonlinear_arith);
        } else {
            assert((n as int) < (cap + 1) * (cap + 1)) by (nonlinear_arith)
                requires
                    cap == 0xffff_ffff_ffff_ffffu128,
                    n <= u128::MAX,
            ;
        }
    }
    while lo < hi
        invariant
            0 <= lo <= hi <= cap,
            cap == 0xffff_ffff_ffff_ffff,
            lo * lo <= n,
            n < (hi + 1) * (hi + 1),
        decreases hi - lo,
    {
        let mid: u128 = lo + (hi - lo + 1) / 2;
        proof {
            lemma_mul_le(mid as int, mid as int, cap as int, cap as int);
        }
        let sq: u128 = mid * mid;
        if sq <= n {
            lo = mid;
        } else {
            hi = mid - 1;
        }
    }
    proof {
        lemma_sqrt_floor_is(n as int, lo as int);
    }
    lo as u64
}

} // verus!
