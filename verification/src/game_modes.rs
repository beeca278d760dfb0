//! Per-frame match simulation: the match state, paddle collision
//! resolution, scoring and respawn, and the single-player and
//! two-player tick functions.
//!
//! Canonical policy choices, applied consistently throughout:
//! - collision: the face-check policy — the ball must be moving toward
//!   a paddle and overlap its box; on a hit the ball is repositioned
//!   flush against the paddle face before its horizontal velocity is
//!   negated, so one contact cannot re-trigger;
//! - respawn velocity: fixed, biased toward the side that was just
//!   scored against, both components at the configured serve speed;
//! - arena sides: per [`SidePolicy`] — goals in the scoring variant,
//!   bounces (and no goals) in the demo variant.

use vstd::math::abs;
use vstd::prelude::*;

use crate::ai::ai_stepped;
use crate::ai::ai_track;
use crate::ai::target_for;
use crate::ball::in_band;
use crate::ball::lemma_in_band_step;
use crate::ball::stepped;
use crate::ball::Ball;
use crate::ball::BallModel;
use crate::config::GameConfig;
use crate::config::InputSnapshot;
use crate::config::SidePolicy;
use crate::paddle::clamped;
use crate::paddle::updated;
use crate::paddle::Paddle;
use crate::paddle::PaddleModel;

verus! {

/// Mathematical value of a [`MatchState`]: the same fields over `int`.
pub ghost struct MatchModel {
    pub ball: BallModel,
    pub paddle1: PaddleModel,
    pub paddle2: PaddleModel,
    pub score1: int,
    pub score2: int,
    pub timer_ms: int,
    pub cooldown_ms: int,
}

/// Everything that changes during one match: the ball, the two
/// paddles (1 on the left, 2 on the right), both scores, the countdown
/// match timer, and the post-goal cooldown (used by the two-player
/// mode only).
#[derive(Clone, Copy, PartialEq, Eq, Structural, Debug)]
pub struct MatchState {
    pub ball: Ball,
    pub paddle1: Paddle,
    pub paddle2: Paddle,
    pub score1: u32,
    pub score2: u32,
    pub timer_ms: u32,
    pub cooldown_ms: u32,
}

impl View for MatchState {
    type V = MatchModel;

    open spec fn view(&self) -> MatchModel {
        MatchModel {
            ball: self.ball@,
            paddle1: self.paddle1@,
            paddle2: self.paddle2@,
            score1: self.score1 as int,
            score2: self.score2 as int,
            timer_ms: self.timer_ms as int,
            cooldown_ms: self.cooldown_ms as int,
        }
    }
}

/// Whether the ball is moving toward the left paddle and its box
/// overlaps the paddle's face on both axes.
pub open spec fn hits_left(b: BallModel, p: PaddleModel) -> bool {
    &&& b.vx < 0
    &&& b.x <= p.x + p.width
    &&& b.x + b.radius >= p.x
    &&& b.y + b.radius >= p.y
    &&& b.y <= p.y + p.height
}

/// Whether the ball is moving toward the right paddle and its box
/// overlaps the paddle's face on both axes.
pub open spec fn hits_right(b: BallModel, p: PaddleModel) -> bool {
    &&& b.vx > 0
    &&& b.x + b.radius >= p.x
    &&& b.x <= p.x + p.width
    &&& b.y + b.radius >= p.y
    &&& b.y <= p.y + p.height
}

/// The ball repositioned flush against the right face of the left
/// paddle, with its horizontal velocity reflected.
pub open spec fn bounced_off_left(b: BallModel, p: PaddleModel) -> BallModel {
    BallModel { x: p.x + p.width, vx: -b.vx, ..b }
}

/// The ball repositioned flush against the left face of the right
/// paddle, with its horizontal velocity reflected.
pub open spec fn bounced_off_right(b: BallModel, p: PaddleModel) -> BallModel {
    BallModel { x: p.x - b.radius, vx: -b.vx, ..b }
}

/// Collision resolution against both paddles, left one first, at most
/// one resolution per paddle per frame. The paddles sit on opposite
/// sides, so the order cannot matter for well-placed paddles.
pub open spec fn collided(b: BallModel, p1: PaddleModel, p2: PaddleModel) -> BallModel {
    let b1 = if hits_left(b, p1) {
        bounced_off_left(b, p1)
    } else {
        b
    };
    if hits_right(b1, p2) {
        bounced_off_right(b1, p2)
    } else {
        b1
    }
}

/// Whether the ball's trailing edge is at or past the right goal line.
pub open spec fn crossed_right_goal(b: BallModel, w: int) -> bool {
    b.x + b.radius >= w
}

/// Whether the ball's leading edge is at or past the left goal line.
pub open spec fn crossed_left_goal(b: BallModel) -> bool {
    b.x <= 0
}

/// Whether this ball position awards a goal under the configured side
/// policy.
pub open spec fn goal_pending(b: BallModel, cfg: GameConfig) -> bool {
    cfg.side_policy == SidePolicy::Goal && (crossed_right_goal(b, cfg.arena_width as int)
        || crossed_left_goal(b))
}

/// A freshly served ball: at the arena centre, both velocity
/// components at the serve speed, heading toward the given side — the
/// side that was just scored against.
pub open spec fn serve_ball(cfg: GameConfig, toward_right: bool) -> BallModel {
    BallModel {
        x: cfg.arena_width as int / 2,
        y: cfg.arena_height as int / 2,
        vx: if toward_right {
            cfg.ball_speed as int
        } else {
            -cfg.ball_speed as int
        },
        vy: if toward_right {
            cfg.ball_speed as int
        } else {
            -cfg.ball_speed as int
        },
        radius: cfg.ball_radius as int,
    }
}

/// Scoring and respawn. A crossing of the right goal line scores for
/// player 1 and serves toward the right; a crossing of the left goal
/// line scores for player 2 and serves toward the left. The scoring
/// side's counter goes up by exactly 1, the other is untouched, and
/// the ball is replaced wholesale. Under bouncing sides this is the
/// identity.
pub open spec fn scored(m: MatchModel, cfg: GameConfig) -> MatchModel {
    if cfg.side_policy != SidePolicy::Goal {
        m
    } else if crossed_right_goal(m.ball, cfg.arena_width as int) {
        MatchModel { ball: serve_ball(cfg, true), score1: m.score1 + 1, ..m }
    } else if crossed_left_goal(m.ball) {
        MatchModel { ball: serve_ball(cfg, false), score2: m.score2 + 1, ..m }
    } else {
        m
    }
}

/// A countdown after one frame: decremented by the frame time, floored
/// at zero.
pub open spec fn ticked_down(t: int, f: int) -> int {
    if t - f > 0 {
        t - f
    } else {
        0
    }
}

/// The match after one single-player frame: the AI tracks the ball
/// with the left paddle, the player moves the right paddle, the ball
/// advances and bounces, collisions resolve, goals score and respawn,
/// and the timer counts down (every frame — this mode has no
/// cooldown).
pub open spec fn single_player_tick(
    m: MatchModel,
    cfg: GameConfig,
    input: InputSnapshot,
    frame_ms: int,
) -> MatchModel {
    let h = cfg.arena_height as int;
    let p1 = clamped(ai_stepped(m.paddle1, target_for(m.ball.y, m.paddle1.height, h)), h);
    let p2 = updated(m.paddle2, h, input.up2, input.down2);
    let b = collided(stepped(m.ball, cfg.arena_width as int, h, cfg.side_policy), p1, p2);
    let moved = scored(MatchModel { ball: b, paddle1: p1, paddle2: p2, ..m }, cfg);
    MatchModel { timer_ms: ticked_down(m.timer_ms, frame_ms), ..moved }
}

/// The match after one two-player frame. During a cooldown only the
/// cooldown counts down: paddles, ball, scores and the match timer are
/// all frozen. Otherwise both players move their paddles, the ball
/// advances, collisions resolve, and a goal scores, respawns, starts
/// the cooldown and freezes the timer for that frame; the timer counts
/// down only on goalless frames.
pub open spec fn multi_player_tick(
    m: MatchModel,
    cfg: GameConfig,
    input: InputSnapshot,
    frame_ms: int,
) -> MatchModel {
    if m.cooldown_ms > 0 {
        MatchModel { cooldown_ms: ticked_down(m.cooldown_ms, frame_ms), ..m }
    } else {
        let h = cfg.arena_height as int;
        let p1 = updated(m.paddle1, h, input.up1, input.down1);
        let p2 = updated(m.paddle2, h, input.up2, input.down2);
        let b = collided(stepped(m.ball, cfg.arena_width as int, h, cfg.side_policy), p1, p2);
        let moved = MatchModel { ball: b, paddle1: p1, paddle2: p2, ..m };
        if goal_pending(b, cfg) {
            MatchModel { cooldown_ms: cfg.cooldown_ms as int, ..scored(moved, cfg) }
        } else {
            MatchModel { timer_ms: ticked_down(m.timer_ms, frame_ms), ..moved }
        }
    }
}

/// The state every match starts from: ball served from the centre
/// toward the right, paddles centred vertically at their configured
/// margins, scores zero, the timer full, no cooldown.
pub open spec fn initial_match(cfg: GameConfig) -> MatchModel {
    let w = cfg.arena_width as int;
    let h = cfg.arena_height as int;
    MatchModel {
        ball: serve_ball(cfg, true),
        paddle1: PaddleModel {
            x: cfg.paddle_margin as int,
            y: (h - cfg.paddle_height as int) / 2,
            speed: cfg.paddle_speed as int,
            width: cfg.paddle_width as int,
            height: cfg.paddle_height as int,
        },
        paddle2: PaddleModel {
            x: w - cfg.paddle_margin as int - cfg.paddle_width as int,
            y: (h - cfg.paddle_height as int) / 2,
            speed: cfg.paddle_speed as int,
            width: cfg.paddle_width as int,
            height: cfg.paddle_height as int,
        },
        score1: 0,
        score2: 0,
        timer_ms: cfg.match_duration_ms as int,
        cooldown_ms: 0,
    }
}

/// The per-frame invariant of a running match: the paddles sit at
/// their configured horizontal stations inside the arena, the ball has
/// the configured size, a never-zero horizontal velocity whose one
/// frame of displacement is at most half the free space, and a
/// position inside the arena or — for a bouncing edge — at most one
/// frame's displacement past it.
pub open spec fn inv(m: MatchModel, cfg: GameConfig) -> bool {
    let w = cfg.arena_width as int;
    let h = cfg.arena_height as int;
    &&& m.ball.radius == cfg.ball_radius
    &&& m.ball.vx != 0
    &&& 2 * abs(m.ball.vx) <= w - m.ball.radius
    &&& abs(m.ball.vx) <= 10_000
    &&& 2 * abs(m.ball.vy) <= h - m.ball.radius
    &&& abs(m.ball.vy) <= 10_000
    &&& in_band(m.ball.y, m.ball.vy, m.ball.radius, h)
    &&& if cfg.side_policy == SidePolicy::Goal {
        0 < m.ball.x && m.ball.x + m.ball.radius < w
    } else {
        in_band(m.ball.x, m.ball.vx, m.ball.radius, w)
    }
    &&& m.paddle1.x == cfg.paddle_margin
    &&& m.paddle2.x == w - cfg.paddle_margin - cfg.paddle_width
    &&& m.paddle1.width == cfg.paddle_width && m.paddle2.width == cfg.paddle_width
    &&& m.paddle1.height == cfg.paddle_height && m.paddle2.height == cfg.paddle_height
    &&& m.paddle1.speed == cfg.paddle_speed && m.paddle2.speed == cfg.paddle_speed
    &&& 0 <= m.paddle1.y && m.paddle1.y + m.paddle1.height <= h
    &&& 0 <= m.paddle2.y && m.paddle2.y + m.paddle2.height <= h
}

/// Law: a pending goal increments exactly one score by exactly 1 and
/// leaves the other unchanged, and the new ball sits at the arena
/// centre.
pub proof fn lemma_goal_monotonic(m: MatchModel, cfg: GameConfig)
    requires
        cfg.wf(),
        goal_pending(m.ball, cfg),
    ensures
        (scored(m, cfg).score1 == m.score1 + 1 && scored(m, cfg).score2 == m.score2) || (scored(
            m,
            cfg,
        ).score1 == m.score1 && scored(m, cfg).score2 == m.score2 + 1),
        scored(m, cfg).ball.x == cfg.arena_width as int / 2,
        scored(m, cfg).ball.y == cfg.arena_height as int / 2,
{
}

/// Law: a goalless frame leaves both scores untouched; scores never
/// move any other way, so they are monotone over a match.
pub proof fn lemma_no_goal_no_score(m: MatchModel, cfg: GameConfig)
    requires
        !goal_pending(m.ball, cfg),
    ensures
        scored(m, cfg).score1 == m.score1,
        scored(m, cfg).score2 == m.score2,
{
}

/// Law: every respawned ball sits exactly at the arena centre,
/// whichever side it is served toward.
pub proof fn lemma_respawn_centered(cfg: GameConfig, toward_right: bool)
    ensures
        serve_ball(cfg, toward_right).x == cfg.arena_width as int / 2,
        serve_ball(cfg, toward_right).y == cfg.arena_height as int / 2,
{
}

/// Law: the starting state of a match satisfies the per-frame
/// invariant.
pub proof fn lemma_initial_inv(cfg: GameConfig)
    requires
        cfg.wf(),
    ensures
        inv(initial_match(cfg), cfg),
{
}

/// Law: one single-player frame preserves the per-frame invariant.
pub proof fn lemma_single_tick_inv(
    m: MatchModel,
    cfg: GameConfig,
    input: InputSnapshot,
    frame_ms: int,
)
    requires
        cfg.wf(),
        inv(m, cfg),
    ensures
        inv(single_player_tick(m, cfg, input, frame_ms), cfg),
{
    lemma_in_band_step(m.ball.y, m.ball.vy, m.ball.radius, cfg.arena_height as int);
    if cfg.side_policy != SidePolicy::Goal {
        lemma_in_band_step(m.ball.x, m.ball.vx, m.ball.radius, cfg.arena_width as int);
    }
}

/// Law: one two-player frame preserves the per-frame invariant.
pub proof fn lemma_multi_tick_inv(
    m: MatchModel,
    cfg: GameConfig,
    input: InputSnapshot,
    frame_ms: int,
)
    requires
        cfg.wf(),
        inv(m, cfg),
    ensures
        inv(multi_player_tick(m, cfg, input, frame_ms), cfg),
{
    lemma_in_band_step(m.ball.y, m.ball.vy, m.ball.radius, cfg.arena_height as int);
    if cfg.side_policy != SidePolicy::Goal {
        lemma_in_band_step(m.ball.x, m.ball.vx, m.ball.radius, cfg.arena_width as int);
    }
}

/// Law: scores never decrease within a match — one frame of either
/// play mode moves at most one of them, up by exactly 1.
pub proof fn lemma_tick_scores_monotone(
    m: MatchModel,
    cfg: GameConfig,
    input: InputSnapshot,
    frame_ms: int,
)
    ensures
        ({
            let s = single_player_tick(m, cfg, input, frame_ms);
            (s.score1 == m.score1 && s.score2 == m.score2) || (s.score1 == m.score1 + 1
                && s.score2 == m.score2) || (s.score1 == m.score1 && s.score2 == m.score2 + 1)
        }),
        ({
            let s = multi_player_tick(m, cfg, input, frame_ms);
            (s.score1 == m.score1 && s.score2 == m.score2) || (s.score1 == m.score1 + 1
                && s.score2 == m.score2) || (s.score1 == m.score1 && s.score2 == m.score2 + 1)
        }),
{
}

/// Collision resolution followed by scoring, the shared tail of both
/// play modes. Returns whether a goal was awarded this frame.
pub fn update_game_state(
    ball: &mut Ball,
    paddle1: &Paddle,
    paddle2: &Paddle,
    score1: &mut u32,
    score2: &mut u32,
    cfg: &GameConfig,
) -> (goal: bool)
    requires
        cfg.wf(),
        old(ball)@.wf(),
        paddle1@.wf(),
        paddle2@.wf(),
        paddle1@.x + paddle1@.width <= 2_000_000,
        -2_000_000 <= paddle2@.x,
        *old(score1) < u32::MAX,
        *old(score2) < u32::MAX,
    ensures
        ({
            let b = collided(old(ball)@, paddle1@, paddle2@);
            let after = scored(
                MatchModel {
                    ball: b,
                    paddle1: paddle1@,
                    paddle2: paddle2@,
                    score1: *old(score1) as int,
                    score2: *old(score2) as int,
                    timer_ms: 0,
                    cooldown_ms: 0,
                },
                *cfg,
            );
            &&& goal == goal_pending(b, *cfg)
            &&& final(ball)@ == after.ball
            &&& *final(score1) == after.score1
            &&& *final(score2) == after.score2
        }),
        final(ball)@.wf(),
{
    if ball.vx < 0 && ball.x <= paddle1.x + paddle1.width && ball.x + ball.radius >= paddle1.x
        && ball.y + ball.radius >= paddle1.y && ball.y <= paddle1.y + paddle1.height {
        ball.x = paddle1.x + paddle1.width;
        ball.vx = -ball.vx;
    }
    if ball.vx > 0 && ball.x + ball.radius >= paddle2.x && ball.x <= paddle2.x + paddle2.width
        && ball.y + ball.radius >= paddle2.y && ball.y <= paddle2.y + paddle2.height {
        ball.x = paddle2.x - ball.radius;
        ball.vx = -ball.vx;
    }
    let mut goal = false;
    if matches!(cfg.side_policy, SidePolicy::Goal) {
        if ball.x + ball.radius >= cfg.arena_width {
            *score1 = *score1 + 1;
            *ball = Ball::new(
                cfg.arena_width / 2,
                cfg.arena_height / 2,
                cfg.ball_speed,
                cfg.ball_speed,
                cfg.ball_radius,
            );
            goal = true;
        } else if ball.x <= 0 {
            *score2 = *score2 + 1;
            *ball = Ball::new(
                cfg.arena_width / 2,
                cfg.arena_height / 2,
                -cfg.ball_speed,
                -cfg.ball_speed,
                cfg.ball_radius,
            );
            goal = true;
        }
    }
    goal
}

/// One single-player frame, as [`single_player_tick`] describes: AI
/// left paddle, human right paddle, ball motion, collisions, scoring,
/// timer countdown.
pub fn single_player(state: &mut MatchState, cfg: &GameConfig, input: InputSnapshot, frame_ms: u32)
    requires
        cfg.wf(),
        inv(old(state)@, *cfg),
        old(state)@.score1 < u32::MAX as int,
        old(state)@.score2 < u32::MAX as int,
    ensures
        final(state)@ == single_player_tick(old(state)@, *cfg, input, frame_ms as int),
        inv(final(state)@, *cfg),
{
    proof {
        lemma_single_tick_inv(old(state)@, *cfg, input, frame_ms as int);
    }
    ai_track(&mut state.paddle1, state.ball.y, cfg.arena_height);
    state.paddle2.update(cfg.arena_height, input.up2, input.down2);
    state.ball.step(cfg.arena_width, cfg.arena_height, cfg.side_policy);
    update_game_state(
        &mut state.ball,
        &state.paddle1,
        &state.paddle2,
        &mut state.score1,
        &mut state.score2,
        cfg,
    );
    state.timer_ms = if state.timer_ms >= frame_ms {
        state.timer_ms - frame_ms
    } else {
        0
    };
}

/// One two-player frame, as [`multi_player_tick`] describes: frozen
/// during a cooldown, otherwise both paddles by input, ball motion,
/// collisions, scoring with cooldown start, timer countdown on
/// goalless frames.
pub fn multi_player(state: &mut MatchState, cfg: &GameConfig, input: InputSnapshot, frame_ms: u32)
    requires
        cfg.wf(),
        inv(old(state)@, *cfg),
        old(state)@.score1 < u32::MAX as int,
        old(state)@.score2 < u32::MAX as int,
    ensures
        final(state)@ == multi_player_tick(old(state)@, *cfg, input, frame_ms as int),
        inv(final(state)@, *cfg),
{
    proof {
        lemma_multi_tick_inv(old(state)@, *cfg, input, frame_ms as int);
    }
    if state.cooldown_ms > 0 {
        state.cooldown_ms = if state.cooldown_ms >= frame_ms {
            state.cooldown_ms - frame_ms
        } else {
            0
        };
        return ;
    }
    state.paddle1.update(cfg.arena_height, input.up1, input.down1);
    state.paddle2.update(cfg.arena_height, input.up2, input.down2);
    state.ball.step(cfg.arena_width, cfg.arena_height, cfg.side_policy);
    let goal = update_game_state(
        &mut state.ball,
        &state.paddle1,
        &state.paddle2,
        &mut state.score1,
        &mut state.score2,
        cfg,
    );
    if goal {
        state.cooldown_ms = cfg.cooldown_ms;
    } else {
        state.timer_ms = if state.timer_ms >= frame_ms {
            state.timer_ms - frame_ms
        } else {
            0
        };
    }
}

/// Resets a match to its starting state: ball served from the centre,
/// paddles centred at their stations, scores zero, timer full, no
/// cooldown.
pub fn reset_game(state: &mut MatchState, cfg: &GameConfig)
    requires
        cfg.wf(),
    ensures
        final(state)@ == initial_match(*cfg),
        inv(final(state)@, *cfg),
{
    proof {
        lemma_initial_inv(*cfg);
    }
    let paddle_y = (cfg.arena_height - cfg.paddle_height) / 2;
    *state = MatchState {
        ball: Ball::new(
            cfg.arena_width / 2,
            cfg.arena_height / 2,
            cfg.ball_speed,
            cfg.ball_speed,
            cfg.ball_radius,
        ),
        paddle1: Paddle::new(
            cfg.paddle_margin,
            paddle_y,
            cfg.paddle_speed,
            cfg.paddle_width,
            cfg.paddle_height,
        ),
        paddle2: Paddle::new(
            cfg.arena_width - cfg.paddle_margin - cfg.paddle_width,
            paddle_y,
            cfg.paddle_speed,
            cfg.paddle_width,
            cfg.paddle_height,
        ),
        score1: 0,
        score2: 0,
        timer_ms: cfg.match_duration_ms,
        cooldown_ms: 0,
    };
}

} // verus!
