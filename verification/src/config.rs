//! Arena and gameplay constants gathered in one configuration value,
//! plus the small plain types shared by the rest of the crate.

use vstd::prelude::*;

verus! {

/// Behaviour of the left and right arena edges. With `Goal`, a ball
/// crossing a side edge awards a point and respawns; with `Bounce`, the
/// sides reflect the ball like the top and bottom walls and no points
/// are scored.
#[derive(Clone, Copy, PartialEq, Eq, Structural, Debug)]
pub enum SidePolicy {
    Bounce,
    Goal,
}

/// All arena, paddle, ball and timing constants for one match.
///
/// Distances are in arena units, speeds in units per frame, times in
/// milliseconds. `wf` bounds every field so that per-frame arithmetic
/// stays inside `i32`, and relates the sizes so that a respawned ball
/// sits strictly inside the arena and a paddle rebound cannot land the
/// ball on a goal line.
#[derive(Clone, Copy, PartialEq, Eq, Structural, Debug)]
pub struct GameConfig {
    pub arena_width: i32,
    pub arena_height: i32,
    pub paddle_width: i32,
    pub paddle_height: i32,
    pub paddle_speed: i32,
    /// Distance of each paddle's near edge from its side of the arena.
    pub paddle_margin: i32,
    /// Side of the square bounding box of the ball.
    pub ball_radius: i32,
    /// Magnitude of each velocity component of a freshly served ball.
    pub ball_speed: i32,
    pub match_duration_ms: u32,
    /// Pause after a goal in the two-player mode; zero disables it.
    pub cooldown_ms: u32,
    pub side_policy: SidePolicy,
}

impl GameConfig {
    pub open spec fn wf(self) -> bool {
        &&& 0 < self.arena_width <= 1_000_000
        &&& 0 < self.arena_height <= 1_000_000
        &&& 0 < self.ball_radius <= 100_000
        &&& 2 * self.ball_radius < self.arena_width
        &&& 2 * self.ball_radius < self.arena_height
        &&& 0 < self.ball_speed <= 10_000
        &&& 2 * self.ball_speed <= self.arena_width - self.ball_radius
        &&& 2 * self.ball_speed <= self.arena_height - self.ball_radius
        &&& 0 < self.paddle_width <= 10_000
        &&& 0 < self.paddle_height <= self.arena_height
        &&& 0 < self.paddle_speed <= 10_000
        &&& 0 <= self.paddle_margin
        &&& self.paddle_margin + self.paddle_width + self.ball_radius < self.arena_width - self.paddle_margin - self.paddle_width
        &&& 0 < self.match_duration_ms
    }

    /// The constants of the standard match: a 1200 by 800 arena, 15 by
    /// 120 paddles 80 units in from the sides, a ball of size 12 moving
    /// 5 units per frame per axis, a 60 second match, a 2 second pause
    /// after each goal, and scoring side edges.
    pub fn standard() -> (cfg: GameConfig)
        ensures
            cfg.wf(),
            cfg.arena_width == 1200,
            cfg.arena_height == 800,
            cfg.paddle_width == 15,
            cfg.paddle_height == 120,
            cfg.paddle_speed == 5,
            cfg.paddle_margin == 80,
            cfg.ball_radius == 12,
            cfg.ball_speed == 5,
            cfg.match_duration_ms == 60_000,
            cfg.cooldown_ms == 2_000,
            cfg.side_policy == SidePolicy::Goal,
    {
        GameConfig {
            arena_width: 1200,
            arena_height: 800,
            paddle_width: 15,
            paddle_height: 120,
            paddle_speed: 5,
            paddle_margin: 80,
            ball_radius: 12,
            ball_speed: 5,
            match_duration_ms: 60_000,
            cooldown_ms: 2_000,
            side_policy: SidePolicy::Goal,
        }
    }
}

/// An axis-aligned box, used for collision queries.
#[derive(Clone, Copy, PartialEq, Eq, Structural, Debug)]
pub struct Rect {
    pub x: i32,
    pub y: i32,
    pub width: i32,
    pub height: i32,
}

/// One frame's worth of sampled input: which movement keys are held,
/// and whether a mode was selected this frame (menu only).
#[derive(Clone, Copy, PartialEq, Eq, Structural, Debug)]
pub struct InputSnapshot {
    pub up1: bool,
    pub down1: bool,
    pub up2: bool,
    pub down2: bool,
    pub select_multi: bool,
    pub select_single: bool,
}

impl InputSnapshot {
    /// A snapshot with no key held and nothing selected.
    pub fn idle() -> (inp: InputSnapshot)
        ensures
            inp == (InputSnapshot {
                up1: false,
                down1: false,
                up2: false,
                down2: false,
                select_multi: false,
                select_single: false,
            }),
    {
        InputSnapshot {
            up1: false,
            down1: false,
            up2: false,
            down2: false,
            select_multi: false,
            select_single: false,
        }
    }
}

} // verus!
