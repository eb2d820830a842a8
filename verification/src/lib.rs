//! A verified core for a grid-based snake game.
//!
//! The snake moves on a toroidal grid, eats food to grow, and the game
//! resets when the snake collides with its own body.  The simulation
//! state and the tick-based update logic live here; rendering and input
//! decoding are left to an unverified shell around this library.

pub mod direction;
pub mod food;
pub mod snake;
pub mod game;
pub mod rng;
pub mod laws;
