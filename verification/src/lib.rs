//! The simulation core of a two-player falling-block game: pieces, the board,
//! the engine that applies commands to them, and the bookkeeping of attack
//! lines between two players.

pub mod attack;
pub mod board;
pub mod control;
pub mod engine;
pub mod events;
pub mod input;
pub mod known_systems;
pub mod laws;
pub mod piece;
pub mod rng;
pub mod tetrimino;
