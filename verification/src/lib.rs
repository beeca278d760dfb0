//! Core simulation for a two-paddle ball game: ball motion and wall
//! bounces, paddle movement and clamping, an AI tracking controller,
//! paddle collision resolution, scoring with respawn, a countdown match
//! timer, and the menu/play/game-over mode machine.
//!
//! All quantities are integers: positions and velocities in arena units
//! per frame, times in milliseconds. Rendering and input polling are not
//! here; callers sample input into plain values, tick the simulation, and
//! read the state back through accessors.

pub mod ai;
pub mod ball;
pub mod config;
pub mod game;
pub mod game_modes;
pub mod paddle;

pub use ball::Ball;
pub use config::GameConfig;
pub use config::InputSnapshot;
pub use config::Rect;
pub use config::SidePolicy;
pub use game::Game;
pub use game::Mode;
pub use game::Outcome;
pub use game_modes::MatchState;
pub use paddle::Paddle;
