//! The wandering, shooting enemy, and the collision-damage handler.
//!
//! The enemy drifts every frame along its current direction, but that
//! direction changes only when the repeating move timer completes — never
//! between completions.  On each completion of the shoot timer it fires a
//! standard ball at the player, aimed from half a unit above its own
//! position.  If no player is present, the whole frame's work is skipped.

use vstd::prelude::*;

use crate::ball::{standard_ball, standard_ball_spec, BallBundle};
use crate::entity::{Health, Projectile};
use crate::timer::{Timer, TimerMode};
use crate::units::{
    dir_wf, isqrt_u128, lemma_component_within_len, lemma_mul_bounds_signed, lemma_mul_le,
    lemma_sqrt_floor_is, pos_wf, scale_toward, scaled_ratio, sqrt_floor, Vec3Fp, DIR_SCALE,
};

verus! {

/// Milliseconds between changes of the wander direction.
pub const ENEMY_MOVE_PERIOD_MS: u64 = 2000;

/// Milliseconds between shots at the player.
pub const ENEMY_SHOOT_PERIOD_MS: u64 = 1500;

/// Launch speed of an enemy shot: 20 units per second, in position ticks
/// per second.
pub const ENEMY_SHOT_TICKS_PER_SEC: i64 = 10_000_000_000;

/// Shots leave from half a unit above the enemy, in position ticks.
pub const ENEMY_MUZZLE_RISE_TICKS: i64 = 250_000_000;

/// Longest frame the enemy logic accepts, so that a drift step fits in an
/// `i64` alongside any in-bounds position.
pub const FRAME_DT_LIMIT_MS: u64 = 1_000_000_000;

/// The enemy's two repeating timers and its current wander direction,
/// scaled by `DIR_SCALE` and level with the ground.
#[derive(Clone, Copy, Debug, PartialEq, Eq, Structural)]
pub struct Enemy {
    pub move_timer: Timer,
    pub shoot_timer: Timer,
    pub current_direction: Vec3Fp,
}

impl Enemy {
    pub open spec fn wf(self) -> bool {
        &&& self.move_timer.wf()
        &&& self.shoot_timer.wf()
        &&& dir_wf(self.current_direction)
        &&& self.current_direction.y == 0
    }
}

/// An enemy together with its spawn position.
#[derive(Clone, Copy, Debug, PartialEq, Eq, Structural)]
pub struct EnemyBundle {
    pub enemy: Enemy,
    pub transform: Vec3Fp,
}

/// The one enemy of the level: fresh two-second move and one-and-a-half
/// second shoot timers, no drift yet, standing at (5, 0.5, 5) world units.
pub fn spawn_enemy() -> (b: EnemyBundle)
    ensures
        b.enemy.move_timer == (Timer {
            remaining_ms: ENEMY_MOVE_PERIOD_MS,
            period_ms: ENEMY_MOVE_PERIOD_MS,
            mode: TimerMode::Repeating,
        }),
        b.enemy.shoot_timer == (Timer {
            remaining_ms: ENEMY_SHOOT_PERIOD_MS,
            period_ms: ENEMY_SHOOT_PERIOD_MS,
            mode: TimerMode::Repeating,
        }),
        b.enemy.current_direction == (Vec3Fp { x: 0i64, y: 0i64, z: 0i64 }),
        b.transform == (Vec3Fp { x: 2_500_000_000i64, y: 250_000_000i64, z: 2_500_000_000i64 }),
        b.enemy.wf(),
        pos_wf(b.transform),
{
    EnemyBundle {
        enemy: Enemy {
            move_timer: Timer::from_ms(ENEMY_MOVE_PERIOD_MS, TimerMode::Repeating),
            shoot_timer: Timer::from_ms(ENEMY_SHOOT_PERIOD_MS, TimerMode::Repeating),
            current_direction: Vec3Fp { x: 0, y: 0, z: 0 },
        },
        transform: Vec3Fp { x: 2_500_000_000, y: 250_000_000, z: 2_500_000_000 },
    }
}

/// The direction the enemy uses this frame: the freshly sampled one
/// exactly when the move timer completes, its previous one otherwise.
pub open spec fn wander_direction(e: Enemy, dt_ms: u64, fresh: Vec3Fp) -> Vec3Fp {
    if Timer::spec_tick(e.move_timer, dt_ms).1 {
        fresh
    } else {
        e.current_direction
    }
}

/// The wandering half of the enemy over one frame: the move timer ticks,
/// and the direction switches to the frame's fresh sample exactly on a
/// completion.  (Position drifts every frame regardless; it is not part
/// of this state.)
pub open spec fn wander_step(e: Enemy, dt_ms: u64, fresh: Vec3Fp) -> Enemy {
    Enemy {
        move_timer: Timer::spec_tick(e.move_timer, dt_ms).0,
        current_direction: wander_direction(e, dt_ms, fresh),
        ..e
    }
}

/// The wandering half of the enemy after a run of frames, each giving
/// its elapsed milliseconds and its freshly sampled direction.
pub open spec fn wander_after(e: Enemy, frames: Seq<(u64, Vec3Fp)>) -> Enemy
    decreases frames.len(),
{
    if frames.len() == 0 {
        e
    } else {
        wander_after(wander_step(e, frames[0].0, frames[0].1), frames.skip(1))
    }
}

/// Milliseconds covered by a run of frames.
pub open spec fn frames_total_ms(frames: Seq<(u64, Vec3Fp)>) -> int
    decreases frames.len(),
{
    if frames.len() == 0 {
        0
    } else {
        frames[0].0 + frames_total_ms(frames.skip(1))
    }
}

proof fn lemma_frames_total_ms_nonneg(frames: Seq<(u64, Vec3Fp)>)
    ensures
        frames_total_ms(frames) >= 0,
    decreases frames.len(),
{
    if frames.len() > 0 {
        lemma_frames_total_ms_nonneg(frames.skip(1));
    }
}

/// The wander direction only changes when the move timer completes: over
/// any run of frames too short for the next completion, the direction
/// stays exactly what it was, however many fresh samples were on offer,
/// and the timer merely counts the run down.
pub proof fn lemma_direction_fixed_between_completions(e: Enemy, frames: Seq<(u64, Vec3Fp)>)
    requires
        e.move_timer.wf(),
        frames_total_ms(frames) < e.move_timer.remaining_ms,
    ensures
        wander_after(e, frames).current_direction == e.current_direction,
        wander_after(e, frames).move_timer.remaining_ms == e.move_timer.remaining_ms
            - frames_total_ms(frames),
        wander_after(e, frames).move_timer.period_ms == e.move_timer.period_ms,
        wander_after(e, frames).move_timer.mode == e.move_timer.mode,
    decreases frames.len(),
{
    if frames.len() > 0 {
        lemma_frames_total_ms_nonneg(frames.skip(1));
        let e1 = wander_step(e, frames[0].0, frames[0].1);
        assert(frames[0].0 < e.move_timer.remaining_ms);
        lemma_direction_fixed_between_completions(e1, frames.skip(1));
    }
}

/// Squared length of the integer vector `(x, y, z)`.
pub open spec fn sum_sq(x: int, y: int, z: int) -> int {
    x * x + y * y + z * z
}

/// One velocity component of a shot flying from the muzzle toward the
/// player: the difference component `d`, scaled to the launch speed and
/// divided by the distance `len`, rounding the magnitude down.
pub open spec fn toward_comp(d: int, len: int) -> int {
    scaled_ratio(d, ENEMY_SHOT_TICKS_PER_SEC as int, len)
}

/// Relies on `rand::Rng::gen_range` (through `rand::thread_rng`): the
/// sample lies in the given range; nothing else is assumed of it.
#[verifier::external_body]
fn random_coordinate() -> (r: i64)
    ensures
        -DIR_SCALE <= r <= DIR_SCALE,
{
    rand::Rng::gen_range(&mut rand::thread_rng(), -DIR_SCALE..=DIR_SCALE)
}

/// `d` is the point `(sx, sz)` of the disc rescaled to the horizontal
/// direction of (nearly) unit length — or, for the centre of the disc,
/// which has no direction, the fixed fallback direction.
pub open spec fn rescaled_draw(sx: int, sz: int, d: Vec3Fp) -> bool {
    if sx == 0 && sz == 0 {
        d == (Vec3Fp { x: DIR_SCALE, y: 0i64, z: 0i64 })
    } else {
        let len = sqrt_floor(sum_sq(sx, 0, sz));
        &&& d.x == scaled_ratio(sx, DIR_SCALE as int, len)
        &&& d.y == 0
        &&& d.z == scaled_ratio(sz, DIR_SCALE as int, len)
    }
}

/// A wander direction sampled uniformly in the horizontal plane: a random
/// point of the disc, rescaled to (nearly) unit length.  Should the draws
/// keep yielding no usable direction, the fixed fallback direction is
/// returned instead.
pub fn sample_wander_direction() -> (d: Vec3Fp)
    ensures
        dir_wf(d),
        d.y == 0,
        d.x != 0 || d.z != 0,
        exists|sx: int, sz: int|
            -DIR_SCALE <= sx <= DIR_SCALE && -DIR_SCALE <= sz <= DIR_SCALE && #[trigger]
            rescaled_draw(sx, sz, d),
{
    let mut attempt: u8 = 0;
    while attempt < 64
        invariant
            attempt <= 64,
        decreases 64 - attempt,
    {
        let sx = random_coordinate();
        let sz = random_coordinate();
        proof {
            assert(0 <= sx * sx <= DIR_SCALE * DIR_SCALE && 0 <= sz * sz <= DIR_SCALE
                * DIR_SCALE) by (nonlinear_arith)
                requires
                    -DIR_SCALE <= sx <= DIR_SCALE,
                    -DIR_SCALE <= sz <= DIR_SCALE,
            ;
        }
        let sq: i64 = sx * sx + sz * sz;
        if sq > 0 {
            let len: u64 = isqrt_u128(sq as u128);
            proof {
                lemma_component_within_len(sx as int, sq as int, len as int);
                lemma_component_within_len(sz as int, sq as int, len as int);
            }
            let x = scale_toward(sx, DIR_SCALE, len);
            let z = scale_toward(sz, DIR_SCALE, len);
            if x != 0 || z != 0 {
                let d = Vec3Fp { x, y: 0, z };
                proof {
                    assert(rescaled_draw(sx as int, sz as int, d));
                }
                return d;
            }
        }
        attempt = attempt + 1;
    }
    let d = Vec3Fp { x: DIR_SCALE, y: 0, z: 0 };
    proof {
        assert(rescaled_draw(0, 0, d));
    }
    d
}

/// One frame of enemy behaviour against a player at `player_pos`, with
/// `fresh_direction` the direction sampled for this frame (drawn uniformly
/// on the horizontal plane by the caller) in case the move timer
/// completes.  The enemy drifts two units per second along its current
/// direction — one position tick per direction unit per millisecond — and
/// on a shoot-timer completion returns the ball it fires at the player,
/// tagged with one point of damage.  Without a player the frame is
/// skipped entirely; a shot whose muzzle coincides with the player has no
/// aiming direction and is not fired.
pub fn enemy_ai(
    enemy: &mut Enemy,
    enemy_pos: &mut Vec3Fp,
    player_pos: Option<&Vec3Fp>,
    dt_ms: u64,
    fresh_direction: &Vec3Fp,
) -> (shot: Option<(BallBundle, Projectile)>)
    requires
        old(enemy).wf(),
        pos_wf(*old(enemy_pos)),
        dir_wf(*fresh_direction),
        fresh_direction.y == 0,
        dt_ms <= FRAME_DT_LIMIT_MS,
        player_pos matches Some(p) ==> pos_wf(*p),
    ensures
        final(enemy).wf(),
        player_pos is None ==> {
            &&& *final(enemy) == *old(enemy)
            &&& *final(enemy_pos) == *old(enemy_pos)
            &&& shot is None
        },
        player_pos matches Some(p) ==> {
            let dir = wander_direction(*old(enemy), dt_ms, *fresh_direction);
            let px = old(enemy_pos).x + dir.x * dt_ms;
            let py = old(enemy_pos).y + dir.y * dt_ms;
            let pz = old(enemy_pos).z + dir.z * dt_ms;
            let sy = py + ENEMY_MUZZLE_RISE_TICKS;
            let dx = p.x - px;
            let dy = p.y - sy;
            let dz = p.z - pz;
            let len = sqrt_floor(sum_sq(dx, dy, dz));
            &&& final(enemy).move_timer == Timer::spec_tick(old(enemy).move_timer, dt_ms).0
            &&& final(enemy).shoot_timer == Timer::spec_tick(old(enemy).shoot_timer, dt_ms).0
            &&& final(enemy).current_direction == dir
            &&& final(enemy_pos).x == px
            &&& final(enemy_pos).y == py
            &&& final(enemy_pos).z == pz
            &&& shot == if Timer::spec_tick(old(enemy).shoot_timer, dt_ms).1 && !(dx == 0 && dy
                == 0 && dz == 0) {
                Some(
                    (
                        standard_ball_spec(
                            Vec3Fp { x: px as i64, y: sy as i64, z: pz as i64 },
                            Vec3Fp {
                                x: toward_comp(dx, len) as i64,
                                y: toward_comp(dy, len) as i64,
                                z: toward_comp(dz, len) as i64,
                            },
                        ),
                        Projectile { damage: 1i32 },
                    ),
                )
            } else {
                None::<(BallBundle, Projectile)>
            }
        },
{
    let p = match player_pos {
        Some(p) => p,
        None => {
            return None;
        },
    };
    let move_done = enemy.move_timer.tick(dt_ms);
    if move_done {
        enemy.current_direction = *fresh_direction;
    }
    proof {
        lemma_mul_bounds_signed(
            enemy.current_direction.x as int,
            dt_ms as int,
            DIR_SCALE as int,
            FRAME_DT_LIMIT_MS as int,
        );
        lemma_mul_bounds_signed(
            enemy.current_direction.y as int,
            dt_ms as int,
            DIR_SCALE as int,
            FRAME_DT_LIMIT_MS as int,
        );
        lemma_mul_bounds_signed(
            enemy.current_direction.z as int,
            dt_ms as int,
            DIR_SCALE as int,
            FRAME_DT_LIMIT_MS as int,
        );
    }
    enemy_pos.x = enemy_pos.x + enemy.current_direction.x * (dt_ms as i64);
    enemy_pos.y = enemy_pos.y + enemy.current_direction.y * (dt_ms as i64);
    enemy_pos.z = enemy_pos.z + enemy.current_direction.z * (dt_ms as i64);
    let shoot_done = enemy.shoot_timer.tick(dt_ms);
    if !shoot_done {
        return None;
    }
    let sx = enemy_pos.x;
    let sy = enemy_pos.y + ENEMY_MUZZLE_RISE_TICKS;
    let sz = enemy_pos.z;
    let dx = p.x - sx;
    let dy = p.y - sy;
    let dz = p.z - sz;
    if dx == 0 && dy == 0 && dz == 0 {
        return None;
    }
    let ax: u64 = if dx >= 0 {
        dx as u64
    } else {
        (-(dx as i128)) as u64
    };
    let ay: u64 = if dy >= 0 {
        dy as u64
    } else {
        (-(dy as i128)) as u64
    };
    let az: u64 = if dz >= 0 {
        dz as u64
    } else {
        (-(dz as i128)) as u64
    };
    proof {
        let cap: int = 8_001_000_250_000_000_000;
        assert(ax as int <= cap);
        assert(ay as int <= cap);
        assert(az as int <= cap);
        lemma_mul_le(ax as int, ax as int, cap, cap);
        lemma_mul_le(ay as int, ay as int, cap, cap);
        lemma_mul_le(az as int, az as int, cap, cap);
        assert(3 * (cap * cap) <= u128::MAX);
        assert(ax as int * ax as int == dx as int * dx as int) by (nonlinear_arith)
            requires
                ax as int == if dx < 0 {
                    -(dx as int)
                } else {
                    dx as int
                },
        ;
        assert(ay as int * ay as int == dy as int * dy as int) by (nonlinear_arith)
            requires
                ay as int == if dy < 0 {
                    -(dy as int)
                } else {
                    dy as int
                },
        ;
        assert(az as int * az as int == dz as int * dz as int) by (nonlinear_arith)
            requires
                az as int == if dz < 0 {
                    -(dz as int)
                } else {
                    dz as int
                },
        ;
        if ax >= 1 {
            lemma_mul_le(1, 1, ax as int, ax as int);
        }
        if ay >= 1 {
            lemma_mul_le(1, 1, ay as int, ay as int);
        }
        if az >= 1 {
            lemma_mul_le(1, 1, az as int, az as int);
        }
    }
    let squares: u128 = (ax as u128) * (ax as u128) + (ay as u128) * (ay as u128) + (az as u128)
        * (az as u128);
    let len: u64 = isqrt_u128(squares);
    proof {
        lemma_sqrt_floor_is(sum_sq(dx as int, dy as int, dz as int), len as int);
        lemma_component_within_len(dx as int, squares as int, len as int);
        lemma_component_within_len(dy as int, squares as int, len as int);
        lemma_component_within_len(dz as int, squares as int, len as int);
    }
    let vx = scale_toward(dx, ENEMY_SHOT_TICKS_PER_SEC, len);
    let vy = scale_toward(dy, ENEMY_SHOT_TICKS_PER_SEC, len);
    let vz = scale_toward(dz, ENEMY_SHOT_TICKS_PER_SEC, len);
    Some(
        (
            standard_ball(Vec3Fp { x: sx, y: sy, z: sz }, Vec3Fp { x: vx, y: vy, z: vz }),
            Projectile { damage: 1 },
        ),
    )
}

/// A collision event from the physics engine, naming the two entities.
#[derive(Clone, Copy, Debug, PartialEq, Eq, Structural)]
pub enum CollisionEvent {
    Started(u64, u64),
    Stopped(u64, u64),
}

/// An entity that carries a `Projectile`, for lookup by entity id.
#[derive(Clone, Copy, Debug, PartialEq, Eq, Structural)]
pub struct ProjectileRef {
    pub entity: u64,
    pub projectile: Projectile,
}

/// The damage of the first projectile registered under `id`, if any.
pub open spec fn find_damage(projectiles: Seq<ProjectileRef>, id: u64) -> Option<i32>
    decreases projectiles.len(),
{
    if projectiles.len() == 0 {
        None
    } else if projectiles[0].entity == id {
        Some(projectiles[0].projectile.damage)
    } else {
        find_damage(projectiles.skip(1), id)
    }
}

/// What one event takes off the player's health: the damage of the
/// projectile in it, when its other entity is the player — first trying
/// the event's first entity as the projectile, then the second, as the
/// handler does.  Any other pairing, and any contact-ended event, leaves
/// health alone.
pub open spec fn event_damage(
    projectiles: Seq<ProjectileRef>,
    player_entity: u64,
    e: CollisionEvent,
) -> int {
    match e {
        CollisionEvent::Started(a, b) => if find_damage(projectiles, a) is Some {
            if b == player_entity {
                find_damage(projectiles, a).unwrap() as int
            } else {
                0
            }
        } else if find_damage(projectiles, b) is Some {
            if a == player_entity {
                find_damage(projectiles, b).unwrap() as int
            } else {
                0
            }
        } else {
            0
        },
        CollisionEvent::Stopped(_, _) => 0,
    }
}

/// What a queue of events takes off the player's health in total.
pub open spec fn total_damage(
    projectiles: Seq<ProjectileRef>,
    player_entity: u64,
    events: Seq<CollisionEvent>,
) -> int
    decreases events.len(),
{
    if events.len() == 0 {
        0
    } else {
        event_damage(projectiles, player_entity, events[0]) + total_damage(
            projectiles,
            player_entity,
            events.skip(1),
        )
    }
}

/// Every projectile in the register hurts rather than heals.
pub open spec fn damages_nonneg(projectiles: Seq<ProjectileRef>) -> bool {
    forall|i: int|
        0 <= i < projectiles.len() ==> (#[trigger] projectiles[i]).projectile.damage >= 0
}

proof fn lemma_find_damage_nonneg(projectiles: Seq<ProjectileRef>, id: u64)
    requires
        damages_nonneg(projectiles),
    ensures
        find_damage(projectiles, id) matches Some(d) ==> d >= 0,
    decreases projectiles.len(),
{
    if projectiles.len() > 0 && projectiles[0].entity != id {
        assert(damages_nonneg(projectiles.skip(1))) by {
            assert(forall|i: int|
                0 <= i < projectiles.skip(1).len() ==> projectiles.skip(1)[i]
                    == (#[trigger] projectiles[i + 1]));
        };
        lemma_find_damage_nonneg(projectiles.skip(1), id);
    }
}

proof fn lemma_event_damage_nonneg(
    projectiles: Seq<ProjectileRef>,
    player_entity: u64,
    e: CollisionEvent,
)
    requires
        damages_nonneg(projectiles),
    ensures
        event_damage(projectiles, player_entity, e) >= 0,
{
    match e {
        CollisionEvent::Started(a, b) => {
            lemma_find_damage_nonneg(projectiles, a);
            lemma_find_damage_nonneg(projectiles, b);
        },
        CollisionEvent::Stopped(_, _) => {},
    }
}

proof fn lemma_total_damage_nonneg(
    projectiles: Seq<ProjectileRef>,
    player_entity: u64,
    events: Seq<CollisionEvent>,
)
    requires
        damages_nonneg(projectiles),
    ensures
        total_damage(projectiles, player_entity, events) >= 0,
    decreases events.len(),
{
    if events.len() > 0 {
        lemma_event_damage_nonneg(projectiles, player_entity, events[0]);
        lemma_total_damage_nonneg(projectiles, player_entity, events.skip(1));
    }
}

/// The damage of the first projectile registered under `id`, if any.
pub fn find_projectile_damage(projectiles: &Vec<ProjectileRef>, id: u64) -> (r: Option<i32>)
    ensures
        r == find_damage(projectiles@, id),
{
    let mut i: usize = 0;
    proof {
        assert(projectiles@.skip(0) =~= projectiles@);
    }
    while i < projectiles.len()
        invariant
            i <= projectiles@.len(),
            find_damage(projectiles@, id) == find_damage(projectiles@.skip(i as int), id),
        decreases projectiles@.len() - i,
    {
        proof {
            assert(projectiles@.skip(i as int)[0] == projectiles@[i as int]);
            assert(projectiles@.skip(i as int).skip(1) =~= projectiles@.skip(i as int + 1));
        }
        if projectiles[i].entity == id {
            return Some(projectiles[i].projectile.damage);
        }
        i = i + 1;
    }
    proof {
        assert(projectiles@.skip(projectiles@.len() as int) =~= Seq::<ProjectileRef>::empty());
    }
    None
}

/// Drain a frame's collision events: for each contact-started event that
/// pairs a registered projectile with the player — in either order — the
/// player's health drops by exactly that projectile's damage.  Every
/// other event leaves health unchanged, and nothing is despawned here.
pub fn handle_collisions(
    events: &Vec<CollisionEvent>,
    projectiles: &Vec<ProjectileRef>,
    player_entity: u64,
    health: &mut Health,
)
    requires
        damages_nonneg(projectiles@),
        i32::MIN <= old(health).current - total_damage(projectiles@, player_entity, events@),
    ensures
        final(health).current == old(health).current - total_damage(
            projectiles@,
            player_entity,
            events@,
        ),
        final(health).max == old(health).max,
{
    let ghost whole = total_damage(projectiles@, player_entity, events@);
    let mut i: usize = 0;
    proof {
        assert(events@.skip(0) =~= events@);
    }
    while i < events.len()
        invariant
            i <= events@.len(),
            damages_nonneg(projectiles@),
            whole == total_damage(projectiles@, player_entity, events@),
            i32::MIN <= old(health).current - whole,
            health.current == old(health).current - (whole - total_damage(
                projectiles@,
                player_entity,
                events@.skip(i as int),
            )),
            health.current <= old(health).current,
            health.max == old(health).max,
        decreases events@.len() - i,
    {
        proof {
            assert(events@.skip(i as int)[0] == events@[i as int]);
            assert(events@.skip(i as int).skip(1) =~= events@.skip(i as int + 1));
            lemma_event_damage_nonneg(projectiles@, player_entity, events@[i as int]);
            lemma_total_damage_nonneg(
                projectiles@,
                player_entity,
                events@.skip(i as int + 1),
            );
        }
        match events[i] {
            CollisionEvent::Started(a, b) => {
                let hit: Option<i32> = match find_projectile_damage(projectiles, a) {
                    Some(d) => if b == player_entity {
                        Some(d)
                    } else {
                        None
                    },
                    None => match find_projectile_damage(projectiles, b) {
                        Some(d) => if a == player_entity {
                            Some(d)
                        } else {
                            None
                        },
                        None => None,
                    },
                };
                if let Some(d) = hit {
                    health.current = health.current - d;
                }
            },
            CollisionEvent::Stopped(_, _) => {},
        }
        i = i + 1;
    }
    proof {
        assert(events@.skip(events@.len() as int) =~= Seq::<CollisionEvent>::empty());
    }
}

/// One contact-started event between a projectile and the player costs
/// the player exactly that projectile's damage; an event that names no
/// registered projectile, or whose other entity is not the player, and
/// any contact-ended event, costs nothing.
pub proof fn lemma_collision_damage_cases(
    projectiles: Seq<ProjectileRef>,
    player_entity: u64,
    a: u64,
    b: u64,
)
    ensures
        b == player_entity ==> (find_damage(projectiles, a) matches Some(d) ==> event_damage(
            projectiles,
            player_entity,
            CollisionEvent::Started(a, b),
        ) == d),
        find_damage(projectiles, a) is None && a == player_entity ==> (find_damage(
            projectiles,
            b,
        ) matches Some(d) ==> event_damage(
            projectiles,
            player_entity,
            CollisionEvent::Started(a, b),
        ) == d),
        find_damage(projectiles, a) is None && find_damage(projectiles, b) is None
            ==> event_damage(projectiles, player_entity, CollisionEvent::Started(a, b)) == 0,
        a != player_entity && b != player_entity ==> event_damage(
            projectiles,
            player_entity,
            CollisionEvent::Started(a, b),
        ) == 0,
        event_damage(projectiles, player_entity, CollisionEvent::Stopped(a, b)) == 0,
{
}

} // verus!
