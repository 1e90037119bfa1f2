use first_person::ball::{despawn_balls, standard_ball, BallBundle};
use first_person::clicker::{log_mouse_clicks, ClickTracker};
use first_person::timer::{Timer, TimerMode};
use first_person::units::Vec3Fp;

fn origin() -> Vec3Fp {
    Vec3Fp { x: 0, y: 0, z: 0 }
}

// The look direction at yaw and pitch zero: straight along negative z.
fn forward() -> Vec3Fp {
    Vec3Fp { x: 0, y: 0, z: -1_000_000 }
}

#[test]
fn one_ball_per_rising_click_edge() {
    let mut tracker = ClickTracker::new();
    let pos = origin();
    let aim = forward();
    let presses = [true, true, false, true];
    let mut spawned: u32 = 0;
    for held in presses {
        if log_mouse_clicks(&mut tracker, held, false, &pos, &aim).is_some() {
            spawned += 1;
        }
    }
    assert_eq!(spawned, 2);
}

#[test]
fn holding_the_button_spawns_once() {
    let mut tracker = ClickTracker::new();
    let pos = origin();
    let aim = forward();
    assert!(log_mouse_clicks(&mut tracker, true, false, &pos, &aim).is_some());
    assert!(log_mouse_clicks(&mut tracker, true, false, &pos, &aim).is_none());
    assert!(log_mouse_clicks(&mut tracker, true, false, &pos, &aim).is_none());
}

#[test]
fn right_click_spawns_nothing() {
    let mut tracker = ClickTracker::new();
    let pos = origin();
    let aim = forward();
    assert!(log_mouse_clicks(&mut tracker, false, true, &pos, &aim).is_none());
}

#[test]
fn click_ball_pose_and_physics() {
    let mut tracker = ClickTracker::new();
    let pos = Vec3Fp { x: 0, y: 500_000_000, z: 0 };
    let aim = forward();
    let b = log_mouse_clicks(&mut tracker, true, false, &pos, &aim).unwrap();
    // One unit forward of the player, 15 units per second of velocity.
    assert_eq!((b.transform.x, b.transform.y, b.transform.z), (0, 500_000_000, -500_000_000));
    assert_eq!((b.velocity.x, b.velocity.y, b.velocity.z), (0, 0, -7_500_000_000));
    assert_eq!(b.collider_radius_ticks, 150_000_000);
    assert_eq!(b.restitution_milli, 800);
    assert_eq!(b.friction_milli, 5000);
    assert_eq!(b.damping.linear_milli, 500);
    assert_eq!(b.damping.angular_milli, 500);
    assert_eq!(b.ball.lifetime.remaining_ms, 5000);
    assert_eq!(b.ball.lifetime.period_ms, 5000);
    assert_eq!(b.ball.lifetime.mode, TimerMode::Once);
}

fn ball_with_remaining(ms: u64) -> BallBundle {
    let mut b = standard_ball(
        Vec3Fp { x: 0, y: 0, z: 0 },
        Vec3Fp { x: 0, y: 0, z: 0 },
    );
    b.ball.lifetime.remaining_ms = ms;
    b
}

#[test]
fn despawn_removes_only_expired_balls_in_order() {
    let mut balls = vec![ball_with_remaining(1000), ball_with_remaining(3000), ball_with_remaining(900)];
    despawn_balls(&mut balls, 1000);
    assert_eq!(balls.len(), 1);
    assert_eq!(balls[0].ball.lifetime.remaining_ms, 2000);
}

#[test]
fn despawn_keeps_fresh_balls() {
    let mut balls = vec![ball_with_remaining(5000)];
    despawn_balls(&mut balls, 4999);
    assert_eq!(balls.len(), 1);
    assert_eq!(balls[0].ball.lifetime.remaining_ms, 1);
    despawn_balls(&mut balls, 1);
    assert!(balls.is_empty());
}

#[test]
fn ball_lives_exactly_its_lifetime_within_one_frame() {
    let frame_ms: u64 = 700;
    let mut balls = vec![ball_with_remaining(5000)];
    let mut elapsed: u64 = 0;
    while !balls.is_empty() {
        despawn_balls(&mut balls, frame_ms);
        elapsed += frame_ms;
        assert!(elapsed < 5000 + frame_ms);
    }
    assert!(elapsed >= 5000);
    assert_eq!(elapsed, 5600);
}

#[test]
fn despawning_nothing_is_harmless() {
    let mut balls: Vec<BallBundle> = Vec::new();
    despawn_balls(&mut balls, 1000);
    assert!(balls.is_empty());
}

#[test]
fn one_shot_timer_expires_once() {
    let mut t = Timer::from_ms(5000, TimerMode::Once);
    assert!(!t.tick(4999));
    assert_eq!(t.remaining_ms, 1);
    assert!(t.tick(1));
    assert!(t.expired());
    assert!(!t.tick(100));
    assert_eq!(t.remaining_ms, 0);
}

#[test]
fn repeating_timer_reloads_and_absorbs_skipped_periods() {
    let mut t = Timer::from_ms(2000, TimerMode::Repeating);
    assert!(!t.tick(1999));
    assert_eq!(t.remaining_ms, 1);
    assert!(t.tick(1));
    assert_eq!(t.remaining_ms, 2000);
    assert!(t.tick(2500));
    assert_eq!(t.remaining_ms, 1500);
    assert!(t.tick(4000));
    assert_eq!(t.remaining_ms, 1500);
}
