//! A grid-based snake game: the snake's movement and growth, collision rules,
//! food placement and the time-driven game state machine.

pub mod draw;
pub mod food;
pub mod game;
pub mod snake;
