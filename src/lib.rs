//! A small 2D motion kernel: round balls move in straight lines across a
//! rectangular table and bounce off its walls.
//!
//! All quantities are exact integers in fixed units (see [`geometry`]), so
//! every step is computed without rounding.

pub mod ball;
pub mod game;
pub mod geometry;
pub mod laws;

pub use ball::{new_ball, Ball};
pub use game::{new_game_state_single_ball, tick, GameState, GameStateView};
pub use geometry::{new_table, new_vector2d, Table, Vector2D, LENGTH_SCALE, SPEED_SCALE, TIME_SCALE};
