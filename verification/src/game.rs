//! The mode state machine that sequences a session: menu, one of the
//! two play modes, game over. Entering a play mode resets the match;
//! play ticks run the per-frame simulation and end the match exactly
//! when the countdown timer reaches zero; game over is terminal.

use vstd::prelude::*;

use crate::ball::Ball;
use crate::config::GameConfig;
use crate::config::InputSnapshot;
use crate::game_modes::initial_match;
use crate::game_modes::inv;
use crate::game_modes::multi_player;
use crate::game_modes::multi_player_tick;
use crate::game_modes::reset_game;
use crate::game_modes::single_player;
use crate::game_modes::single_player_tick;
use crate::game_modes::MatchModel;
use crate::game_modes::MatchState;
use crate::paddle::Paddle;

verus! {

/// Where a session stands: in the menu, in one of the two play modes,
/// or finished.
#[derive(Clone, Copy, PartialEq, Eq, Structural, Debug)]
pub enum Mode {
    Menu,
    SinglePlayer,
    MultiPlayer,
    GameOver,
}

/// The result of a finished match, decided by comparing the scores.
#[derive(Clone, Copy, PartialEq, Eq, Structural, Debug)]
pub enum Outcome {
    PlayerOneWins,
    PlayerTwoWins,
    Tie,
}

/// The outcome the scores decide: the higher score wins, equal scores
/// tie.
pub open spec fn outcome_of(score1: int, score2: int) -> Outcome {
    if score1 > score2 {
        Outcome::PlayerOneWins
    } else if score2 > score1 {
        Outcome::PlayerTwoWins
    } else {
        Outcome::Tie
    }
}

/// Mathematical value of a [`Game`].
pub ghost struct GameModel {
    pub config: GameConfig,
    pub mode: Mode,
    pub state: MatchModel,
}

impl GameModel {
    /// A game is well formed when its configuration is, its match
    /// state satisfies the per-frame invariant, and the timer is still
    /// running whenever a play mode is active.
    pub open spec fn wf(self) -> bool {
        &&& self.config.wf()
        &&& inv(self.state, self.config)
        &&& (self.mode == Mode::SinglePlayer || self.mode == Mode::MultiPlayer)
            ==> self.state.timer_ms > 0
    }
}

/// One tick of the whole state machine. In the menu a mode selection
/// resets the match and enters that mode; multi-player takes precedence
/// when both are selected in one frame. In a play mode the match
/// advances one frame and the session ends exactly when the timer
/// reaches zero. Game over is terminal.
pub open spec fn game_tick(g: GameModel, input: InputSnapshot, frame_ms: int) -> GameModel {
    match g.mode {
        Mode::Menu => {
            if input.select_multi {
                GameModel { mode: Mode::MultiPlayer, state: initial_match(g.config), ..g }
            } else if input.select_single {
                GameModel { mode: Mode::SinglePlayer, state: initial_match(g.config), ..g }
            } else {
                g
            }
        },
        Mode::SinglePlayer => {
            let s = single_player_tick(g.state, g.config, input, frame_ms);
            GameModel {
                mode: if s.timer_ms <= 0 {
                    Mode::GameOver
                } else {
                    Mode::SinglePlayer
                },
                state: s,
                ..g
            }
        },
        Mode::MultiPlayer => {
            let s = multi_player_tick(g.state, g.config, input, frame_ms);
            GameModel {
                mode: if s.timer_ms <= 0 {
                    Mode::GameOver
                } else {
                    Mode::MultiPlayer
                },
                state: s,
                ..g
            }
        },
        Mode::GameOver => g,
    }
}

/// The state machine after `n` ticks under a fixed input snapshot and
/// frame time.
pub open spec fn game_ticks(g: GameModel, input: InputSnapshot, frame_ms: int, n: nat) -> GameModel
    decreases n,
{
    if n == 0 {
        g
    } else {
        game_ticks(game_tick(g, input, frame_ms), input, frame_ms, (n - 1) as nat)
    }
}

/// Law: game over is terminal — no further tick changes anything.
pub proof fn lemma_game_over_stays(g: GameModel, input: InputSnapshot, frame_ms: int, n: nat)
    requires
        g.mode == Mode::GameOver,
    ensures
        game_ticks(g, input, frame_ms, n) == g,
    decreases n,
{
    if n > 0 {
        lemma_game_over_stays(g, input, frame_ms, (n - 1) as nat);
    }
}

/// Law: a single-player match with `timer_ms` left on the clock,
/// ticked with a fixed frame time `frame_ms`, reaches game over within
/// every `n` of at least `ceil(timer_ms / frame_ms)` ticks — the
/// single-player timer counts down every frame, goals or not.
pub proof fn lemma_timer_termination(g: GameModel, input: InputSnapshot, frame_ms: int, n: nat)
    requires
        g.mode == Mode::SinglePlayer,
        0 < g.state.timer_ms,
        0 < frame_ms,
        g.state.timer_ms <= n * frame_ms,
    ensures
        game_ticks(g, input, frame_ms, n).mode == Mode::GameOver,
    decreases n,
{
    assert(n > 0) by (nonlinear_arith)
        requires
            0 < g.state.timer_ms,
            g.state.timer_ms <= n * frame_ms,
            0 < frame_ms,
    ;
    let g1 = game_tick(g, input, frame_ms);
    if g1.mode == Mode::GameOver {
        lemma_game_over_stays(g1, input, frame_ms, (n - 1) as nat);
    } else {
        assert((n - 1) * frame_ms == n * frame_ms - frame_ms) by (nonlinear_arith);
        lemma_timer_termination(g1, input, frame_ms, (n - 1) as nat);
    }
}

/// Law: the match does not end early — as long as the ticks taken do
/// not yet cover the clock, a single-player match is still in play and
/// its timer has gone down by exactly the elapsed time.
pub proof fn lemma_timer_runs_full(g: GameModel, input: InputSnapshot, frame_ms: int, n: nat)
    requires
        g.mode == Mode::SinglePlayer,
        0 < frame_ms,
        n * frame_ms < g.state.timer_ms,
    ensures
        game_ticks(g, input, frame_ms, n).mode == Mode::SinglePlayer,
        game_ticks(g, input, frame_ms, n).state.timer_ms == g.state.timer_ms - n * frame_ms,
    decreases n,
{
    if n > 0 {
        assert((n - 1) * frame_ms == n * frame_ms - frame_ms) by (nonlinear_arith);
        assert((n - 1) * frame_ms >= 0) by (nonlinear_arith)
            requires
                n >= 1,
                frame_ms > 0,
        ;
        let g1 = game_tick(g, input, frame_ms);
        lemma_timer_runs_full(g1, input, frame_ms, (n - 1) as nat);
    } else {
        assert(n * frame_ms == 0) by (nonlinear_arith)
            requires
                n == 0,
        ;
    }
}

/// A whole session: the fixed configuration, the current mode, and the
/// match state.
#[derive(Clone, Copy, PartialEq, Eq, Structural, Debug)]
pub struct Game {
    pub config: GameConfig,
    pub mode: Mode,
    pub state: MatchState,
}

impl View for Game {
    type V = GameModel;

    open spec fn view(&self) -> GameModel {
        GameModel { config: self.config, mode: self.mode, state: self.state@ }
    }
}

impl Game {
    /// A new session in the menu, with the match state ready for play.
    pub fn new(config: GameConfig) -> (g: Game)
        requires
            config.wf(),
        ensures
            g@ == (GameModel { config, mode: Mode::Menu, state: initial_match(config) }),
            g@.wf(),
    {
        let mut state = MatchState {
            ball: Ball::new(0, 0, 0, 0, 1),
            paddle1: Paddle::new(0, 0, 0, 1, 1),
            paddle2: Paddle::new(0, 0, 0, 1, 1),
            score1: 0,
            score2: 0,
            timer_ms: 0,
            cooldown_ms: 0,
        };
        reset_game(&mut state, &config);
        Game { config, mode: Mode::Menu, state }
    }

    /// One tick of the session, as [`game_tick`] describes.
    pub fn tick(&mut self, input: InputSnapshot, frame_ms: u32)
        requires
            old(self)@.wf(),
            old(self)@.state.score1 < u32::MAX as int,
            old(self)@.state.score2 < u32::MAX as int,
        ensures
            final(self)@ == game_tick(old(self)@, input, frame_ms as int),
            final(self)@.wf(),
    {
        match self.mode {
            Mode::Menu => {
                if input.select_multi {
                    reset_game(&mut self.state, &self.config);
                    self.mode = Mode::MultiPlayer;
                } else if input.select_single {
                    reset_game(&mut self.state, &self.config);
                    self.mode = Mode::SinglePlayer;
                }
            },
            Mode::SinglePlayer => {
                single_player(&mut self.state, &self.config, input, frame_ms);
                if self.state.timer_ms == 0 {
                    self.mode = Mode::GameOver;
                }
            },
            Mode::MultiPlayer => {
                multi_player(&mut self.state, &self.config, input, frame_ms);
                if self.state.timer_ms == 0 {
                    self.mode = Mode::GameOver;
                }
            },
            Mode::GameOver => {},
        }
    }

    /// The result the current scores decide; meaningful once the mode
    /// is game over, where it no longer changes.
    pub fn outcome(&self) -> (o: Outcome)
        ensures
            o == outcome_of(self@.state.score1, self@.state.score2),
    {
        if self.state.score1 > self.state.score2 {
            Outcome::PlayerOneWins
        } else if self.state.score2 > self.state.score1 {
            Outcome::PlayerTwoWins
        } else {
            Outcome::Tie
        }
    }

    /// The current mode.
    pub fn mode(&self) -> (m: Mode)
        ensures
            m == self.mode,
    {
        self.mode
    }

    /// The ball as of the last completed tick.
    pub fn ball(&self) -> (b: Ball)
        ensures
            b == self.state.ball,
    {
        self.state.ball
    }

    /// The left (player 1) paddle.
    pub fn paddle1(&self) -> (p: Paddle)
        ensures
            p == self.state.paddle1,
    {
        self.state.paddle1
    }

    /// The right (player 2) paddle.
    pub fn paddle2(&self) -> (p: Paddle)
        ensures
            p == self.state.paddle2,
    {
        self.state.paddle2
    }

    /// Player 1's score.
    pub fn score1(&self) -> (s: u32)
        ensures
            s == self.state.score1,
    {
        self.state.score1
    }

    /// Player 2's score.
    pub fn score2(&self) -> (s: u32)
        ensures
            s == self.state.score2,
    {
        self.state.score2
    }

    /// Milliseconds left on the match clock.
    pub fn timer_ms(&self) -> (t: u32)
        ensures
            t == self.state.timer_ms,
    {
        self.state.timer_ms
    }

    /// Milliseconds left of the post-goal cooldown; zero outside one.
    pub fn cooldown_ms(&self) -> (c: u32)
        ensures
            c == self.state.cooldown_ms,
    {
        self.state.cooldown_ms
    }
}

} // verus!
