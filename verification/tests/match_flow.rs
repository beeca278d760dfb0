//! Match-level behaviour: collision resolution, scoring and respawn,
//! the two play modes, the countdown timer, and the mode state machine.

use pong::game_modes::multi_player;
use pong::game_modes::reset_game;
use pong::game_modes::single_player;
use pong::game_modes::update_game_state;
use pong::Ball;
use pong::Game;
use pong::GameConfig;
use pong::InputSnapshot;
use pong::MatchState;
use pong::Mode;
use pong::Outcome;
use pong::Paddle;
use pong::SidePolicy;

fn small_config() -> GameConfig {
    GameConfig {
        arena_width: 1000,
        arena_height: 800,
        paddle_width: 10,
        paddle_height: 100,
        paddle_speed: 5,
        paddle_margin: 50,
        ball_radius: 10,
        ball_speed: 5,
        match_duration_ms: 60_000,
        cooldown_ms: 2_000,
        side_policy: SidePolicy::Goal,
    }
}

fn paddles(cfg: &GameConfig) -> (Paddle, Paddle) {
    (
        Paddle::new(cfg.paddle_margin, 350, cfg.paddle_speed, cfg.paddle_width, cfg.paddle_height),
        Paddle::new(
            cfg.arena_width - cfg.paddle_margin - cfg.paddle_width,
            350,
            cfg.paddle_speed,
            cfg.paddle_width,
            cfg.paddle_height,
        ),
    )
}

#[test]
fn left_paddle_reflects_and_repositions_flush() {
    let cfg = small_config();
    let (p1, p2) = paddles(&cfg);
    // Overlapping the left paddle's face, moving toward it.
    let mut ball = Ball::new(55, 380, -5, 3, 10);
    let mut s1: u32 = 0;
    let mut s2: u32 = 0;
    let goal = update_game_state(&mut ball, &p1, &p2, &mut s1, &mut s2, &cfg);
    assert!(!goal);
    // Flush against the face (x = 50 + 10), horizontal velocity
    // reflected, vertical velocity untouched.
    assert_eq!(ball.x, 60);
    assert_eq!(ball.vx, 5);
    assert_eq!(ball.vy, 3);
    assert_eq!(s1, 0);
    assert_eq!(s2, 0);
}

#[test]
fn right_paddle_reflects_and_repositions_flush() {
    let cfg = small_config();
    let (p1, p2) = paddles(&cfg);
    let mut ball = Ball::new(935, 380, 5, -2, 10);
    let mut s1: u32 = 0;
    let mut s2: u32 = 0;
    let goal = update_game_state(&mut ball, &p1, &p2, &mut s1, &mut s2, &cfg);
    assert!(!goal);
    // Flush against the face (x = 940 - 10), reflected.
    assert_eq!(ball.x, 930);
    assert_eq!(ball.vx, -5);
    assert_eq!(ball.vy, -2);
}

#[test]
fn ball_moving_away_is_not_resolved() {
    let cfg = small_config();
    let (p1, p2) = paddles(&cfg);
    // Overlapping the left paddle but moving away from it.
    let mut ball = Ball::new(55, 380, 5, 3, 10);
    let mut s1: u32 = 0;
    let mut s2: u32 = 0;
    update_game_state(&mut ball, &p1, &p2, &mut s1, &mut s2, &cfg);
    assert_eq!(ball.x, 55);
    assert_eq!(ball.vx, 5);
}

#[test]
fn ball_missing_the_paddle_passes() {
    let cfg = small_config();
    let (p1, p2) = paddles(&cfg);
    // Moving toward the left paddle but above it vertically.
    let mut ball = Ball::new(55, 100, -5, 0, 10);
    let mut s1: u32 = 0;
    let mut s2: u32 = 0;
    update_game_state(&mut ball, &p1, &p2, &mut s1, &mut s2, &cfg);
    assert_eq!(ball.x, 55);
    assert_eq!(ball.vx, -5);
}

#[test]
fn right_crossing_scores_left_player_and_respawns_centre() {
    // Ball at x = 995 with vx = 5 in a width-1000 arena, radius 10:
    // one integration step puts it at x = 1000, its trailing edge at
    // or past the line, scoring for player 1 and respawning the ball
    // at the arena centre.
    let cfg = small_config();
    let (p1, p2) = paddles(&cfg);
    let mut ball = Ball::new(995, 300, 5, 0, 10);
    ball.integrate();
    assert_eq!(ball.x, 1000);
    let mut s1: u32 = 0;
    let mut s2: u32 = 0;
    let goal = update_game_state(&mut ball, &p1, &p2, &mut s1, &mut s2, &cfg);
    assert!(goal);
    assert_eq!(s1, 1);
    assert_eq!(s2, 0);
    assert_eq!((ball.x, ball.y), (500, 400));
    // Served toward the side that conceded.
    assert_eq!(ball.vx, 5);
}

#[test]
fn left_crossing_scores_right_player_only() {
    let cfg = small_config();
    let (p1, p2) = paddles(&cfg);
    let mut ball = Ball::new(-2, 300, -5, 0, 10);
    let mut s1: u32 = 3;
    let mut s2: u32 = 7;
    let goal = update_game_state(&mut ball, &p1, &p2, &mut s1, &mut s2, &cfg);
    assert!(goal);
    // Exactly one score moved, by exactly 1.
    assert_eq!(s1, 3);
    assert_eq!(s2, 8);
    assert_eq!((ball.x, ball.y), (500, 400));
    assert_eq!(ball.vx, -5);
}

#[test]
fn bouncing_sides_award_no_goal() {
    let mut cfg = small_config();
    cfg.side_policy = SidePolicy::Bounce;
    let (p1, p2) = paddles(&cfg);
    let mut ball = Ball::new(1000, 300, 5, 0, 10);
    let mut s1: u32 = 0;
    let mut s2: u32 = 0;
    let goal = update_game_state(&mut ball, &p1, &p2, &mut s1, &mut s2, &cfg);
    assert!(!goal);
    assert_eq!(s1, 0);
    assert_eq!(s2, 0);
    assert_eq!(ball.x, 1000);
}

#[test]
fn reset_game_restores_starting_state() {
    let cfg = small_config();
    let mut state = MatchState {
        ball: Ball::new(1, 2, -5, -5, 10),
        paddle1: Paddle::new(50, 0, 5, 10, 100),
        paddle2: Paddle::new(940, 700, 5, 10, 100),
        score1: 4,
        score2: 9,
        timer_ms: 123,
        cooldown_ms: 55,
    };
    reset_game(&mut state, &cfg);
    assert_eq!((state.ball.x, state.ball.y), (500, 400));
    assert_eq!((state.ball.vx, state.ball.vy), (5, 5));
    assert_eq!(state.ball.radius, 10);
    assert_eq!((state.paddle1.x, state.paddle1.y), (50, 350));
    assert_eq!((state.paddle2.x, state.paddle2.y), (940, 350));
    assert_eq!(state.score1, 0);
    assert_eq!(state.score2, 0);
    assert_eq!(state.timer_ms, 60_000);
    assert_eq!(state.cooldown_ms, 0);
}

#[test]
fn single_player_ticks_timer_every_frame() {
    let cfg = small_config();
    let mut state = MatchState {
        ball: Ball::new(500, 400, 5, 5, 10),
        paddle1: Paddle::new(50, 350, 5, 10, 100),
        paddle2: Paddle::new(940, 350, 5, 10, 100),
        score1: 0,
        score2: 0,
        timer_ms: 100,
        cooldown_ms: 0,
    };
    single_player(&mut state, &cfg, InputSnapshot::idle(), 16);
    assert_eq!(state.timer_ms, 84);
    assert_eq!((state.ball.x, state.ball.y), (505, 405));
    single_player(&mut state, &cfg, InputSnapshot::idle(), 90);
    // Floored at zero, never negative.
    assert_eq!(state.timer_ms, 0);
}

#[test]
fn single_player_ai_tracks_ball() {
    let cfg = small_config();
    let mut state = MatchState {
        ball: Ball::new(500, 100, 5, 0, 10),
        paddle1: Paddle::new(50, 350, 5, 10, 100),
        paddle2: Paddle::new(940, 350, 5, 10, 100),
        score1: 0,
        score2: 0,
        timer_ms: 60_000,
        cooldown_ms: 0,
    };
    // Target is clamp(100 - 50, 0, 700) = 50: the AI paddle steps up.
    single_player(&mut state, &cfg, InputSnapshot::idle(), 16);
    assert_eq!(state.paddle1.y, 345);
    // The human paddle obeys its keys.
    let mut down = InputSnapshot::idle();
    down.down2 = true;
    single_player(&mut state, &cfg, down, 16);
    assert_eq!(state.paddle2.y, 355);
}

#[test]
fn multi_player_goal_starts_cooldown_and_freezes_timer() {
    let cfg = small_config();
    let mut state = MatchState {
        ball: Ball::new(987, 300, 5, 3, 10),
        paddle1: Paddle::new(50, 350, 5, 10, 100),
        paddle2: Paddle::new(940, 350, 5, 10, 100),
        score1: 0,
        score2: 0,
        timer_ms: 60_000,
        cooldown_ms: 0,
    };
    // 987 + 5 = 992, trailing edge 1002 >= 1000: goal for player 1.
    multi_player(&mut state, &cfg, InputSnapshot::idle(), 16);
    assert_eq!(state.score1, 1);
    assert_eq!(state.score2, 0);
    assert_eq!((state.ball.x, state.ball.y), (500, 400));
    assert_eq!(state.cooldown_ms, 2_000);
    // The timer does not decrement on the goal frame.
    assert_eq!(state.timer_ms, 60_000);
}

#[test]
fn multi_player_cooldown_freezes_everything_but_itself() {
    let cfg = small_config();
    let mut state = MatchState {
        ball: Ball::new(500, 400, 5, 5, 10),
        paddle1: Paddle::new(50, 350, 5, 10, 100),
        paddle2: Paddle::new(940, 350, 5, 10, 100),
        score1: 1,
        score2: 0,
        timer_ms: 60_000,
        cooldown_ms: 100,
    };
    let mut keys = InputSnapshot::idle();
    keys.up1 = true;
    keys.down2 = true;
    multi_player(&mut state, &cfg, keys, 16);
    assert_eq!(state.cooldown_ms, 84);
    // Ball, paddles, scores and timer all frozen.
    assert_eq!((state.ball.x, state.ball.y), (500, 400));
    assert_eq!(state.paddle1.y, 350);
    assert_eq!(state.paddle2.y, 350);
    assert_eq!(state.timer_ms, 60_000);
    // The cooldown floors at zero and play resumes.
    multi_player(&mut state, &cfg, InputSnapshot::idle(), 200);
    assert_eq!(state.cooldown_ms, 0);
    multi_player(&mut state, &cfg, InputSnapshot::idle(), 16);
    assert_eq!((state.ball.x, state.ball.y), (505, 405));
    assert_eq!(state.timer_ms, 59_984);
}

#[test]
fn multi_player_moves_both_paddles() {
    let cfg = small_config();
    let mut state = MatchState {
        ball: Ball::new(500, 400, 5, 5, 10),
        paddle1: Paddle::new(50, 350, 5, 10, 100),
        paddle2: Paddle::new(940, 350, 5, 10, 100),
        score1: 0,
        score2: 0,
        timer_ms: 60_000,
        cooldown_ms: 0,
    };
    let mut keys = InputSnapshot::idle();
    keys.up1 = true;
    keys.down2 = true;
    multi_player(&mut state, &cfg, keys, 16);
    assert_eq!(state.paddle1.y, 345);
    assert_eq!(state.paddle2.y, 355);
}

#[test]
fn menu_selects_multi_before_single() {
    let cfg = small_config();
    let mut g = Game::new(cfg);
    assert_eq!(g.mode(), Mode::Menu);
    let mut both = InputSnapshot::idle();
    both.select_multi = true;
    both.select_single = true;
    g.tick(both, 16);
    assert_eq!(g.mode(), Mode::MultiPlayer);
}

#[test]
fn menu_entry_resets_match_state() {
    let cfg = small_config();
    let mut g = Game::new(cfg);
    let mut single = InputSnapshot::idle();
    single.select_single = true;
    g.tick(single, 16);
    assert_eq!(g.mode(), Mode::SinglePlayer);
    assert_eq!(g.score1(), 0);
    assert_eq!(g.score2(), 0);
    assert_eq!(g.timer_ms(), 60_000);
    assert_eq!((g.ball().x, g.ball().y), (500, 400));
    assert_eq!(g.paddle1().y, 350);
    assert_eq!(g.paddle2().y, 350);
    assert_eq!(g.cooldown_ms(), 0);
}

#[test]
fn menu_without_selection_stays_in_menu() {
    let cfg = small_config();
    let mut g = Game::new(cfg);
    g.tick(InputSnapshot::idle(), 16);
    assert_eq!(g.mode(), Mode::Menu);
}

#[test]
fn timer_runs_out_after_exactly_ceil_t_over_f_ticks() {
    // Match duration 1000 ms at 16 ms frames: ceil(1000 / 16) = 63
    // ticks to reach game over, and not one fewer.
    let mut cfg = small_config();
    cfg.match_duration_ms = 1_000;
    let mut g = Game::new(cfg);
    let mut single = InputSnapshot::idle();
    single.select_single = true;
    g.tick(single, 16);
    assert_eq!(g.mode(), Mode::SinglePlayer);
    for _ in 0..62 {
        g.tick(InputSnapshot::idle(), 16);
        assert_eq!(g.mode(), Mode::SinglePlayer);
    }
    g.tick(InputSnapshot::idle(), 16);
    assert_eq!(g.mode(), Mode::GameOver);
    assert_eq!(g.timer_ms(), 0);
}

#[test]
fn game_over_is_terminal() {
    let mut cfg = small_config();
    cfg.match_duration_ms = 10;
    let mut g = Game::new(cfg);
    let mut single = InputSnapshot::idle();
    single.select_single = true;
    g.tick(single, 16);
    g.tick(InputSnapshot::idle(), 16);
    assert_eq!(g.mode(), Mode::GameOver);
    let snapshot = (g.score1(), g.score2(), g.timer_ms());
    let mut both = InputSnapshot::idle();
    both.select_multi = true;
    both.select_single = true;
    g.tick(both, 16);
    assert_eq!(g.mode(), Mode::GameOver);
    assert_eq!((g.score1(), g.score2(), g.timer_ms()), snapshot);
}

#[test]
fn outcome_follows_scores() {
    let cfg = small_config();
    let mut g = Game::new(cfg);
    g.state.score1 = 3;
    g.state.score2 = 1;
    assert_eq!(g.outcome(), Outcome::PlayerOneWins);
    g.state.score2 = 5;
    assert_eq!(g.outcome(), Outcome::PlayerTwoWins);
    g.state.score1 = 5;
    assert_eq!(g.outcome(), Outcome::Tie);
}

#[test]
fn standard_config_is_the_documented_one() {
    let cfg = GameConfig::standard();
    assert_eq!(cfg.arena_width, 1200);
    assert_eq!(cfg.arena_height, 800);
    assert_eq!(cfg.paddle_width, 15);
    assert_eq!(cfg.paddle_height, 120);
    assert_eq!(cfg.paddle_speed, 5);
    assert_eq!(cfg.paddle_margin, 80);
    assert_eq!(cfg.ball_radius, 12);
    assert_eq!(cfg.ball_speed, 5);
    assert_eq!(cfg.match_duration_ms, 60_000);
    assert_eq!(cfg.cooldown_ms, 2_000);
    assert_eq!(cfg.side_policy, SidePolicy::Goal);
}
