//! Turn-based tic-tac-toe: the board, the rules of a game, and the payloads
//! a front end shows to its players.

pub mod board;
pub mod game;
pub mod handlers;
pub mod laws;
pub mod marker;
