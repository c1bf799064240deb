//! A grid-based snake simulation: the grid, the engine that moves the snake,
//! places food and keeps score, and the session that wraps the engine in a
//! playing / game-over lifecycle.
//!
//! Every function is verified against a contract stated over the
//! mathematical model of the game in [`model::GameModel`].

pub mod food;
pub mod game;
pub mod grid;
pub mod laws;
pub mod model;
pub mod session;
