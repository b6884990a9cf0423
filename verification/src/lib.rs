//! A two-player checkers rules engine.
//!
//! The engine owns an 8x8 board, validates and applies submitted moves
//! (diagonal advances, single jumps, chained multi-jumps, promotion to
//! king), enforces turn order and detects the win condition.  All state
//! transitions are specified and verified; the network transport that
//! exposes the engine to remote clients lives outside the library and
//! talks to it through plain values.

pub mod checkers_board;
pub mod checkers_piece;
pub mod errors;
pub mod game;
pub mod laws;
pub mod owner;
pub mod position;
pub mod utils;
