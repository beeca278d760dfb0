//! The AI tracking controller: it aims the centre of its paddle at the
//! ball and moves at most one speed step per frame, snapping exactly
//! onto the target once within one step of it. The snap is a deliberate
//! dead zone that rules out oscillation and overshoot. Difficulty is
//! expressed purely as the AI paddle's speed.

use vstd::math::abs;
use vstd::math::max;
use vstd::prelude::*;

use crate::paddle::clamped;
use crate::paddle::Paddle;
use crate::paddle::PaddleModel;

verus! {

/// The vertical position the AI steers its paddle toward: the paddle
/// centred on the ball's position, clamped into the arena.
pub open spec fn target_for(ball_y: int, paddle_height: int, screen_height: int) -> int {
    let raw = ball_y - paddle_height / 2;
    if raw < 0 {
        0
    } else if raw > screen_height - paddle_height {
        screen_height - paddle_height
    } else {
        raw
    }
}

/// One AI movement step of the vertical position alone: a full speed
/// step toward the target while more than one step away, the exact
/// target once within one step.
pub open spec fn ai_step_y(y: int, target: int, speed: int) -> int {
    if abs(y - target) > speed {
        if y < target {
            y + speed
        } else {
            y - speed
        }
    } else {
        target
    }
}

/// One AI movement step of a whole paddle.
pub open spec fn ai_stepped(p: PaddleModel, target: int) -> PaddleModel {
    PaddleModel { y: ai_step_y(p.y, target, p.speed), ..p }
}

/// The vertical position after `n` AI steps toward a fixed target.
pub open spec fn ai_iter_y(y: int, target: int, speed: int, n: nat) -> int
    decreases n,
{
    if n == 0 {
        y
    } else {
        ai_step_y(ai_iter_y(y, target, speed, (n - 1) as nat), target, speed)
    }
}

/// Law: stepping toward a fixed target closes the distance by exactly
/// the speed each step until it is zero, and never crosses the target.
/// In particular the paddle sits exactly on the target after
/// `ceil(distance / speed)` steps, with zero overshoot, and not before.
pub proof fn lemma_ai_convergence(y: int, target: int, speed: int, n: nat)
    requires
        0 < speed,
    ensures
        abs(ai_iter_y(y, target, speed, n) - target) == max(abs(y - target) - n * speed, 0),
        y <= target ==> ai_iter_y(y, target, speed, n) <= target,
        y >= target ==> ai_iter_y(y, target, speed, n) >= target,
    decreases n,
{
    if n > 0 {
        lemma_ai_convergence(y, target, speed, (n - 1) as nat);
        assert((n - 1) * speed == n * speed - speed) by (nonlinear_arith);
    }
}

/// Law: once the number of steps covers the initial distance, the
/// paddle sits exactly on the target.
pub proof fn lemma_ai_reaches(y: int, target: int, speed: int, n: nat)
    requires
        0 < speed,
        abs(y - target) <= n * speed,
    ensures
        ai_iter_y(y, target, speed, n) == target,
{
    lemma_ai_convergence(y, target, speed, n);
}

/// The speed, in units per frame, of each AI difficulty tier: 1 is
/// easy, 2 medium, 3 hard; anything else falls back to easy.
pub fn ai_difficulty_speed(difficulty: i32) -> (speed: i32)
    ensures
        speed == (if difficulty == 2 {
            4int
        } else if difficulty == 3 {
            6int
        } else {
            3int
        }),
{
    if difficulty == 2 {
        4
    } else if difficulty == 3 {
        6
    } else {
        3
    }
}

/// The target for given ball and arena measurements.
pub fn ai_target(ball_y: i32, paddle_height: i32, screen_height: i32) -> (target: i32)
    requires
        -2_100_000 <= ball_y <= 2_100_000,
        0 < paddle_height <= screen_height <= 1_000_000,
    ensures
        target == target_for(ball_y as int, paddle_height as int, screen_height as int),
        0 <= target <= screen_height - paddle_height,
{
    let raw = ball_y - paddle_height / 2;
    if raw < 0 {
        0
    } else if raw > screen_height - paddle_height {
        screen_height - paddle_height
    } else {
        raw
    }
}

/// One frame of AI control of a paddle: compute the target for the
/// ball's vertical position, take one movement step toward it, and
/// clamp into the arena like every other movement. The target is
/// already inside the arena, so when the paddle starts inside, the
/// clamp moves nothing.
pub fn ai_track(paddle: &mut Paddle, ball_y: i32, screen_height: i32)
    requires
        old(paddle)@.wf(),
        -2_000_000 <= old(paddle)@.y <= 2_000_000,
        -2_100_000 <= ball_y <= 2_100_000,
        old(paddle)@.height <= screen_height <= 1_000_000,
    ensures
        final(paddle)@ == clamped(
            ai_stepped(
                old(paddle)@,
                target_for(ball_y as int, old(paddle)@.height, screen_height as int),
            ),
            screen_height as int,
        ),
        0 <= final(paddle)@.y,
        final(paddle)@.y + final(paddle)@.height <= screen_height,
        final(paddle)@.wf(),
        0 <= old(paddle)@.y && old(paddle)@.y + old(paddle)@.height <= screen_height
            ==> final(paddle)@.y == ai_step_y(
            old(paddle)@.y,
            target_for(ball_y as int, old(paddle)@.height, screen_height as int),
            old(paddle)@.speed,
        ),
    {
    let target = ai_target(ball_y, paddle.height, screen_height);
    let diff = paddle.y - target;
    if diff > paddle.speed || diff < -paddle.speed {
        if paddle.y < target {
            paddle.y = paddle.y + paddle.speed;
        } else {
            paddle.y = paddle.y - paddle.speed;
        }
    } else {
        paddle.y = target;
    }
    paddle.clamp_to_arena(screen_height);
}

} // verus!
