//! Projectile spheres ("balls"): their physics parameters, their one-shot
//! lifetime timer, and the per-frame sweep that removes expired ones.
//!
//! Every spawned ball is removed exactly once: at the first frame where
//! the elapsed time since its spawn reaches the configured lifetime, and
//! never earlier — collisions play no part in removal.

use vstd::prelude::*;

use crate::timer::{Timer, TimerMode};
use crate::units::Vec3Fp;

verus! {

/// Lifetime of every ball, in milliseconds.
pub const BALL_LIFETIME_MS: u64 = 5000;

/// Collider radius, 0.3 world units in position ticks.
pub const BALL_RADIUS_TICKS: i64 = 150_000_000;

/// Bounciness handed to the physics engine, in thousandths.
pub const BALL_RESTITUTION_MILLI: u32 = 800;

/// Surface friction handed to the physics engine, in thousandths.
pub const BALL_FRICTION_MILLI: u32 = 5000;

/// Linear and angular damping handed to the physics engine, in thousandths.
pub const BALL_DAMPING_MILLI: u32 = 500;

/// A ball's countdown to removal.
#[derive(Clone, Copy, Debug, PartialEq, Eq, Structural)]
pub struct Ball {
    pub lifetime: Timer,
}

/// Velocity damping coefficients, in thousandths.
#[derive(Clone, Copy, Debug, PartialEq, Eq, Structural)]
pub struct Damping {
    pub linear_milli: u32,
    pub angular_milli: u32,
}

/// Everything a spawned ball hands to the engine: the countdown, the
/// spawn pose and launch velocity in ticks, and the rigid-body parameters.
#[derive(Clone, Copy, Debug, PartialEq, Eq, Structural)]
pub struct BallBundle {
    pub ball: Ball,
    pub transform: Vec3Fp,
    pub velocity: Vec3Fp,
    pub collider_radius_ticks: i64,
    pub restitution_milli: u32,
    pub friction_milli: u32,
    pub damping: Damping,
}

impl BallBundle {
    pub open spec fn wf(self) -> bool {
        self.ball.lifetime.wf()
    }
}

/// The countdown a freshly spawned ball starts with.
pub open spec fn standard_lifetime() -> Timer {
    Timer { remaining_ms: BALL_LIFETIME_MS, period_ms: BALL_LIFETIME_MS, mode: TimerMode::Once }
}

/// The bundle a spawner makes: the shared sphere shape and physics
/// coefficients, a full lifetime, and the given pose.
pub open spec fn standard_ball_spec(transform: Vec3Fp, velocity: Vec3Fp) -> BallBundle {
    BallBundle {
        ball: Ball { lifetime: standard_lifetime() },
        transform,
        velocity,
        collider_radius_ticks: BALL_RADIUS_TICKS,
        restitution_milli: BALL_RESTITUTION_MILLI,
        friction_milli: BALL_FRICTION_MILLI,
        damping: Damping { linear_milli: BALL_DAMPING_MILLI, angular_milli: BALL_DAMPING_MILLI },
    }
}

/// The bundle every spawner uses: the shared sphere shape and physics
/// coefficients, a full five-second lifetime, and the given pose.
pub fn standard_ball(transform: Vec3Fp, velocity: Vec3Fp) -> (b: BallBundle)
    ensures
        b == standard_ball_spec(transform, velocity),
        b.wf(),
{
    BallBundle {
        ball: Ball { lifetime: Timer::from_ms(BALL_LIFETIME_MS, TimerMode::Once) },
        transform,
        velocity,
        collider_radius_ticks: BALL_RADIUS_TICKS,
        restitution_milli: BALL_RESTITUTION_MILLI,
        friction_milli: BALL_FRICTION_MILLI,
        damping: Damping { linear_milli: BALL_DAMPING_MILLI, angular_milli: BALL_DAMPING_MILLI },
    }
}

/// `b` after its lifetime counted `dt` milliseconds down.
pub open spec fn tick_bundle(b: BallBundle, dt: u64) -> BallBundle {
    BallBundle { ball: Ball { lifetime: Timer::spec_tick(b.ball.lifetime, dt).0 }, ..b }
}

/// The ball still has lifetime left after this frame.
pub open spec fn live(b: BallBundle) -> bool {
    !b.ball.lifetime.spec_expired()
}

/// Filtering a sequence with one more element keeps the front intact and
/// appends the element exactly when it passes.
proof fn lemma_filter_push<A>(s: Seq<A>, x: A, pred: spec_fn(A) -> bool)
    ensures
        s.push(x).filter(pred) == if pred(x) {
            s.filter(pred).push(x)
        } else {
            s.filter(pred)
        },
{
    reveal(Seq::filter);
    assert(s.push(x).drop_last() =~= s);
    assert(s.push(x).last() == x);
}

/// Count every ball's lifetime `dt` milliseconds down and remove the
/// expired ones, keeping the order of the survivors.
pub fn despawn_balls(balls: &mut Vec<BallBundle>, dt_ms: u64)
    requires
        forall|i: int| 0 <= i < old(balls)@.len() ==> (#[trigger] old(balls)@[i]).wf(),
    ensures
        final(balls)@ == old(balls)@.map_values(|b: BallBundle| tick_bundle(b, dt_ms)).filter(
            |b: BallBundle| live(b),
        ),
        forall|i: int| 0 <= i < final(balls)@.len() ==> (#[trigger] final(balls)@[i]).wf(),
{
    let ghost ticked = old(balls)@.map_values(|b: BallBundle| tick_bundle(b, dt_ms));
    let mut kept: Vec<BallBundle> = Vec::new();
    let mut i: usize = 0;
    proof {
        assert(ticked.subrange(0, 0) =~= Seq::<BallBundle>::empty());
        reveal(Seq::filter);
    }
    while i < balls.len()
        invariant
            i <= balls@.len(),
            balls@ == old(balls)@,
            ticked == old(balls)@.map_values(|b: BallBundle| tick_bundle(b, dt_ms)),
            forall|j: int| 0 <= j < balls@.len() ==> (#[trigger] balls@[j]).wf(),
            kept@ == ticked.subrange(0, i as int).filter(|b: BallBundle| live(b)),
            forall|j: int| 0 <= j < kept@.len() ==> (#[trigger] kept@[j]).wf(),
        decreases balls@.len() - i,
    {
        let mut b = balls[i];
        b.ball.lifetime.tick(dt_ms);
        proof {
            assert(b == ticked[i as int]);
            assert(ticked.subrange(0, i + 1) =~= ticked.subrange(0, i as int).push(
                ticked[i as int],
            ));
            lemma_filter_push(
                ticked.subrange(0, i as int),
                ticked[i as int],
                |b: BallBundle| live(b),
            );
        }
        if !b.ball.lifetime.expired() {
            kept.push(b);
        }
        i = i + 1;
    }
    proof {
        assert(ticked.subrange(0, balls@.len() as int) =~= ticked);
    }
    *balls = kept;
}

/// Milliseconds covered by a run of frames.
pub open spec fn sum_ms(dts: Seq<u64>) -> int
    decreases dts.len(),
{
    if dts.len() == 0 {
        0
    } else {
        dts[0] + sum_ms(dts.skip(1))
    }
}

/// A timer after being ticked by each frame of `dts` in turn.
pub open spec fn ticked_timer(t: Timer, dts: Seq<u64>) -> Timer
    decreases dts.len(),
{
    if dts.len() == 0 {
        t
    } else {
        ticked_timer(Timer::spec_tick(t, dts[0]).0, dts.skip(1))
    }
}

/// A run of frames never covers negative time.
pub proof fn lemma_sum_ms_nonneg(dts: Seq<u64>)
    ensures
        sum_ms(dts) >= 0,
    decreases dts.len(),
{
    if dts.len() > 0 {
        lemma_sum_ms_nonneg(dts.skip(1));
    }
}

/// A run of frames splits into all but the last frame, then the last.
pub proof fn lemma_sum_ms_drop_last(dts: Seq<u64>)
    requires
        dts.len() >= 1,
    ensures
        sum_ms(dts) == sum_ms(dts.drop_last()) + dts.last(),
    decreases dts.len(),
{
    if dts.len() == 1 {
        assert(dts.drop_last() =~= Seq::<u64>::empty());
        assert(dts.skip(1) =~= Seq::<u64>::empty());
    } else {
        lemma_sum_ms_drop_last(dts.skip(1));
        assert(dts.skip(1).drop_last() =~= dts.drop_last().skip(1));
        assert(dts.drop_last()[0] == dts[0]);
        assert(dts.drop_last().len() >= 1);
    }
}

/// A one-shot timer counts down by exactly the covered time: after any
/// run of frames it holds its initial time minus the run's total, floored
/// at zero — so it expires at the first frame where the total reaches the
/// initial time, and never before.
pub proof fn lemma_once_timer_counts_down(t: Timer, dts: Seq<u64>)
    requires
        t.wf(),
        t.mode == TimerMode::Once,
    ensures
        ticked_timer(t, dts).mode == TimerMode::Once,
        ticked_timer(t, dts).period_ms == t.period_ms,
        ticked_timer(t, dts).wf(),
        ticked_timer(t, dts).remaining_ms == if sum_ms(dts) >= t.remaining_ms {
            0int
        } else {
            t.remaining_ms - sum_ms(dts)
        },
    decreases dts.len(),
{
    if dts.len() > 0 {
        let t1 = Timer::spec_tick(t, dts[0]).0;
        lemma_once_timer_counts_down(t1, dts.skip(1));
        lemma_sum_ms_nonneg(dts.skip(1));
    }
}

/// The removal happens exactly one lifetime after the spawn, to within
/// the final frame: if a fresh ball's timer is still running before a
/// run's last frame and has run out after it, the run covers at least the
/// lifetime but less than the lifetime plus that final frame.
pub proof fn lemma_ball_removed_on_time(dts: Seq<u64>)
    requires
        dts.len() >= 1,
        ticked_timer(standard_lifetime(), dts.drop_last()).remaining_ms > 0,
        ticked_timer(standard_lifetime(), dts).remaining_ms == 0,
    ensures
        BALL_LIFETIME_MS <= sum_ms(dts) < BALL_LIFETIME_MS + dts.last(),
{
    lemma_once_timer_counts_down(standard_lifetime(), dts);
    lemma_once_timer_counts_down(standard_lifetime(), dts.drop_last());
    lemma_sum_ms_drop_last(dts);
    lemma_sum_ms_nonneg(dts.drop_last());
}

} // verus!
