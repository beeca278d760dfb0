//! Component-level behaviour: ball motion and bounces, paddle movement
//! and clamping, and the AI tracking controller.

use pong::ai::ai_difficulty_speed;
use pong::ai::ai_target;
use pong::ai::ai_track;
use pong::Ball;
use pong::Paddle;
use pong::Rect;
use pong::SidePolicy;

#[test]
fn ball_integrates_velocity() {
    let mut b = Ball::new(100, 200, 5, -3, 12);
    b.integrate();
    assert_eq!(b.x, 105);
    assert_eq!(b.y, 197);
    assert_eq!(b.vx, 5);
    assert_eq!(b.vy, -3);
}

#[test]
fn ball_bounces_off_top_exactly_negated() {
    // A ball on the top boundary moving up: one frame of motion flips
    // the vertical velocity to the same magnitude and leaves the ball
    // at most one frame's displacement past the wall.
    let mut b = Ball::new(100, 0, 5, -7, 10);
    b.update(1000, 800);
    assert_eq!(b.vy, 7);
    assert_eq!(b.y, -7);
    assert_eq!(b.x, 105);
}

#[test]
fn ball_bounces_off_bottom() {
    let mut b = Ball::new(100, 789, 5, 4, 10);
    b.update(1000, 800);
    // 793 + 10 >= 800: bottom crossing, vertical velocity negated.
    assert_eq!(b.y, 793);
    assert_eq!(b.vy, -4);
}

#[test]
fn ball_update_leaves_sides_to_scoring() {
    // With scoring sides, a side crossing does not bounce here.
    let mut b = Ball::new(995, 300, 5, 0, 10);
    b.update(1000, 800);
    assert_eq!(b.x, 1000);
    assert_eq!(b.vx, 5);
}

#[test]
fn ball_change_dir_bounces_sides() {
    // The demo variant: all four walls reflect.
    let mut b = Ball::new(995, 300, 5, 0, 10);
    b.change_dir(1000, 800);
    assert_eq!(b.x, 1000);
    assert_eq!(b.vx, -5);
}

#[test]
fn ball_bounds_box() {
    let b = Ball::new(30, 40, 1, 1, 12);
    let r = b.get_bounds();
    assert_eq!(
        r,
        Rect {
            x: 30,
            y: 40,
            width: 12,
            height: 12
        }
    );
}

#[test]
fn ball_init_default_radius() {
    let b = Ball::init(10, 20, -5, 5);
    assert_eq!(b.radius, 12);
    assert_eq!(b.vx, -5);
}

#[test]
fn paddle_moves_up_and_down() {
    let mut p = Paddle::new(50, 400, 5, 15, 120);
    p.move_by_input(true, false);
    assert_eq!(p.y, 395);
    p.move_by_input(false, true);
    assert_eq!(p.y, 400);
}

#[test]
fn paddle_both_keys_cancel() {
    let mut p = Paddle::new(50, 400, 5, 15, 120);
    p.move_by_input(true, true);
    assert_eq!(p.y, 400);
}

#[test]
fn paddle_clamp_keeps_wall_containment() {
    // After a clamp, 0 <= y <= screen_height - height, wherever the
    // paddle was.
    let mut p = Paddle::new(50, -30, 5, 15, 120);
    p.clamp_to_arena(800);
    assert_eq!(p.y, 0);
    let mut q = Paddle::new(50, 750, 5, 15, 120);
    q.clamp_to_arena(800);
    assert_eq!(q.y, 680);
    let mut r = Paddle::new(50, 340, 5, 15, 120);
    r.clamp_to_arena(800);
    assert_eq!(r.y, 340);
}

#[test]
fn paddle_update_moves_then_clamps() {
    let mut p = Paddle::new(50, 2, 5, 15, 120);
    p.update(800, true, false);
    assert_eq!(p.y, 0);
    let mut q = Paddle::new(50, 678, 5, 15, 120);
    q.update(800, false, true);
    assert_eq!(q.y, 680);
}

#[test]
fn paddle_bounds_box() {
    let p = Paddle::new(50, 340, 5, 15, 120);
    let r = p.get_bounds();
    assert_eq!(
        r,
        Rect {
            x: 50,
            y: 340,
            width: 15,
            height: 120
        }
    );
}

#[test]
fn ai_target_centres_on_ball() {
    // Ball at 300, paddle height 120, arena height 800:
    // clamp(300 - 60, 0, 680) = 240.
    assert_eq!(ai_target(300, 120, 800), 240);
    assert_eq!(ai_target(-500, 120, 800), 0);
    assert_eq!(ai_target(790, 120, 800), 680);
}

#[test]
fn ai_converges_exactly_without_overshoot() {
    // Paddle at y = 350, height 120, speed 5; stationary ball at
    // y = 300: target 240, distance 110, so exactly 22 ticks to
    // arrive, never passing the target.
    let mut p = Paddle::new(80, 350, 5, 15, 120);
    for _ in 0..21 {
        ai_track(&mut p, 300, 800);
        assert!(p.y > 240);
    }
    assert_eq!(p.y, 245);
    ai_track(&mut p, 300, 800);
    assert_eq!(p.y, 240);
    // Converged: further ticks stay put.
    ai_track(&mut p, 300, 800);
    assert_eq!(p.y, 240);
}

#[test]
fn ai_snaps_within_one_step() {
    let mut p = Paddle::new(80, 243, 5, 15, 120);
    ai_track(&mut p, 300, 800);
    assert_eq!(p.y, 240);
}

#[test]
fn ai_difficulty_tiers() {
    assert_eq!(ai_difficulty_speed(1), 3);
    assert_eq!(ai_difficulty_speed(2), 4);
    assert_eq!(ai_difficulty_speed(3), 6);
    assert_eq!(ai_difficulty_speed(0), 3);
    assert_eq!(ai_difficulty_speed(9), 3);
}
