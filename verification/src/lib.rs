//! Solver for a deterministic, turn-based combat puzzle on an 8x8 grid.
//!
//! The library has three parts: the simulation engine (`game`), which models
//! the board, the legal moves and the turn-resolution rules; the search
//! engine (`solver`), which explores the move tree depth-first with
//! transposition-table deduplication and best-bound pruning; and the token
//! codec (`tokens`), which renders a move sequence as the caller-facing
//! token string and parses such a string back.

pub mod game;
pub mod solver;
pub mod tokens;
