//! A verified two-player tic-tac-toe engine.
//!
//! The library tracks a 3x3 grid of cells, alternates turns between the two
//! players, detects a line-of-three win or a full-board draw, and resets to a
//! fresh game. Every operation carries a contract over a mathematical view of
//! the game, and the laws module proves the general properties of the rules.

pub mod game;
pub mod laws;
