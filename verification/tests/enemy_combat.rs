use first_person::enemy::{
    enemy_ai, find_projectile_damage, handle_collisions, spawn_enemy, CollisionEvent,
    ProjectileRef,
};
use first_person::entity::{Health, Projectile};
use first_person::timer::TimerMode;
use first_person::units::Vec3Fp;

fn zero() -> Vec3Fp {
    Vec3Fp { x: 0, y: 0, z: 0 }
}

fn east() -> Vec3Fp {
    Vec3Fp { x: 1_000_000, y: 0, z: 0 }
}

#[test]
fn enemy_spawns_with_fresh_timers() {
    let b = spawn_enemy();
    assert_eq!(b.enemy.move_timer.period_ms, 2000);
    assert_eq!(b.enemy.move_timer.remaining_ms, 2000);
    assert_eq!(b.enemy.move_timer.mode, TimerMode::Repeating);
    assert_eq!(b.enemy.shoot_timer.period_ms, 1500);
    assert_eq!(b.enemy.shoot_timer.mode, TimerMode::Repeating);
    assert_eq!((b.transform.x, b.transform.y, b.transform.z), (2_500_000_000, 250_000_000, 2_500_000_000));
    assert_eq!(b.enemy.current_direction, zero());
}

#[test]
fn enemy_skips_the_frame_without_a_player() {
    let mut bundle = spawn_enemy();
    let mut pos = bundle.transform;
    let before = bundle.enemy;
    let shot = enemy_ai(&mut bundle.enemy, &mut pos, None, 1000, &east());
    assert!(shot.is_none());
    assert_eq!(bundle.enemy, before);
    assert_eq!(pos, bundle.transform);
}

#[test]
fn direction_changes_only_when_the_move_timer_completes() {
    let mut bundle = spawn_enemy();
    let mut pos = zero();
    let player = Vec3Fp { x: 0, y: 5_000_000_000, z: 0 };
    // 1000 ms: the 2000 ms move timer has not completed; the direction
    // stays as spawned even though a fresh one is on offer.
    let shot = enemy_ai(&mut bundle.enemy, &mut pos, Some(&player), 1000, &east());
    assert!(shot.is_none());
    assert_eq!(bundle.enemy.current_direction, zero());
    assert_eq!(pos, zero());
    // 1000 ms more: the move timer completes and the fresh direction is
    // taken, so this frame drifts a full second along it: two units.
    enemy_ai(&mut bundle.enemy, &mut pos, Some(&player), 1000, &east());
    assert_eq!(bundle.enemy.current_direction, east());
    assert_eq!((pos.x, pos.y, pos.z), (1_000_000_000, 0, 0));
    // Between completions the direction stays put again.
    enemy_ai(&mut bundle.enemy, &mut pos, Some(&player), 500, &zero());
    assert_eq!(bundle.enemy.current_direction, east());
}

#[test]
fn enemy_fires_at_the_player_on_the_shoot_timer() {
    let mut bundle = spawn_enemy();
    let mut pos = zero();
    // Shoot timer: 1500 ms.  First frame of 1000 ms arms it; the player
    // is placed so that after the second frame the muzzle-to-player
    // vector is (0.6, 0, 0.8) units: distance one unit, speed 20.
    let player = Vec3Fp { x: 1_300_000_000, y: 250_000_000, z: 400_000_000 };
    let shot = enemy_ai(&mut bundle.enemy, &mut pos, Some(&player), 1000, &east());
    assert!(shot.is_none());
    let shot = enemy_ai(&mut bundle.enemy, &mut pos, Some(&player), 1000, &east());
    let (ball, projectile) = shot.unwrap();
    assert_eq!(projectile.damage, 1);
    // Muzzle: the drifted position plus half a unit up.
    assert_eq!((ball.transform.x, ball.transform.y, ball.transform.z), (1_000_000_000, 250_000_000, 0));
    // 20 units per second toward the player: (12, 0, 16) units per second.
    assert_eq!((ball.velocity.x, ball.velocity.y, ball.velocity.z), (6_000_000_000, 0, 8_000_000_000));
    assert_eq!(ball.ball.lifetime.remaining_ms, 5000);
    assert_eq!(ball.restitution_milli, 800);
}

#[test]
fn no_shot_when_the_player_sits_on_the_muzzle() {
    let mut bundle = spawn_enemy();
    let mut pos = zero();
    let player = Vec3Fp { x: 0, y: 250_000_000, z: 0 };
    enemy_ai(&mut bundle.enemy, &mut pos, Some(&player), 1000, &zero());
    let shot = enemy_ai(&mut bundle.enemy, &mut pos, Some(&player), 1000, &zero());
    assert!(shot.is_none());
    // The timers advanced all the same.
    assert_eq!(bundle.enemy.shoot_timer.remaining_ms, 1000);
}

#[test]
fn sampled_wander_directions_are_horizontal_and_bounded() {
    let mut seen_distinct = false;
    let first = first_person::enemy::sample_wander_direction();
    for _ in 0..100 {
        let d = first_person::enemy::sample_wander_direction();
        assert_eq!(d.y, 0);
        assert!(d.x.abs() <= 1_000_000);
        assert!(d.z.abs() <= 1_000_000);
        assert!(d.x != 0 || d.z != 0);
        // A near-unit direction: never shorter than half a unit.
        assert!(d.x * d.x + d.z * d.z >= 250_000_000_000);
        if d != first {
            seen_distinct = true;
        }
    }
    assert!(seen_distinct);
}

#[test]
fn projectile_lookup_finds_the_first_match() {
    let projectiles = vec![
        ProjectileRef { entity: 7, projectile: Projectile { damage: 1 } },
        ProjectileRef { entity: 9, projectile: Projectile { damage: 3 } },
        ProjectileRef { entity: 7, projectile: Projectile { damage: 5 } },
    ];
    assert_eq!(find_projectile_damage(&projectiles, 7), Some(1));
    assert_eq!(find_projectile_damage(&projectiles, 9), Some(3));
    assert_eq!(find_projectile_damage(&projectiles, 8), None);
}

#[test]
fn projectile_hitting_player_costs_its_damage() {
    let projectiles = vec![ProjectileRef { entity: 7, projectile: Projectile { damage: 1 } }];
    let mut health = Health { current: 10, max: 10 };
    handle_collisions(&vec![CollisionEvent::Started(7, 3)], &projectiles, 3, &mut health);
    assert_eq!(health.current, 9);
    // The same pair in the other order costs the same.
    handle_collisions(&vec![CollisionEvent::Started(3, 7)], &projectiles, 3, &mut health);
    assert_eq!(health.current, 8);
}

#[test]
fn unrelated_events_leave_health_alone() {
    let projectiles = vec![ProjectileRef { entity: 7, projectile: Projectile { damage: 1 } }];
    let mut health = Health { current: 10, max: 10 };
    // A projectile against something that is not the player.
    handle_collisions(&vec![CollisionEvent::Started(7, 8)], &projectiles, 3, &mut health);
    // Two entities that are no projectiles at all.
    handle_collisions(&vec![CollisionEvent::Started(5, 6)], &projectiles, 3, &mut health);
    // A contact that ended.
    handle_collisions(&vec![CollisionEvent::Stopped(7, 3)], &projectiles, 3, &mut health);
    assert_eq!(health.current, 10);
}

#[test]
fn a_queue_of_events_applies_each_hit() {
    let projectiles = vec![
        ProjectileRef { entity: 7, projectile: Projectile { damage: 1 } },
        ProjectileRef { entity: 9, projectile: Projectile { damage: 3 } },
    ];
    let mut health = Health { current: 10, max: 10 };
    let events = vec![
        CollisionEvent::Started(7, 3),
        CollisionEvent::Started(5, 6),
        CollisionEvent::Started(9, 3),
        CollisionEvent::Started(7, 3),
    ];
    handle_collisions(&events, &projectiles, 3, &mut health);
    assert_eq!(health.current, 5);
}

#[test]
fn an_empty_event_queue_changes_nothing() {
    let projectiles = vec![ProjectileRef { entity: 7, projectile: Projectile { damage: 1 } }];
    let mut health = Health { current: 4, max: 10 };
    handle_collisions(&Vec::new(), &projectiles, 3, &mut health);
    assert_eq!(health.current, 4);
    let mut health2 = Health { current: 4, max: 10 };
    handle_collisions(&vec![CollisionEvent::Started(7, 3)], &Vec::new(), 3, &mut health2);
    assert_eq!(health2.current, 4);
}

#[test]
fn health_may_fall_below_zero() {
    let projectiles = vec![ProjectileRef { entity: 7, projectile: Projectile { damage: 6 } }];
    let mut health = Health { current: 5, max: 10 };
    let events = vec![CollisionEvent::Started(7, 3), CollisionEvent::Started(7, 3)];
    handle_collisions(&events, &projectiles, 3, &mut health);
    assert_eq!(health.current, -7);
    assert_eq!(health.max, 10);
}
