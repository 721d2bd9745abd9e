//! Per-frame rules of a small arcade driving game: the player steers a car
//! between scrolling obstacles, loses health on each crash, and the game is
//! over when health runs out.
//!
//! Positions are integers in milli-pixels and elapsed time is in
//! microseconds, so that every rule of a frame is exact arithmetic.

pub mod game_state;
pub mod labels;
pub mod spawn;
pub mod motion;
pub mod frame;
pub mod lemmas;

pub use game_state::GameState;
