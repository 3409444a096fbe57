//! Verified engine for a two-player 3x3 board game: board state, win and
//! draw detection, a one-ply move-selection heuristic for the automated
//! opponent, and the turn-sequencing state machine. All input and output
//! lives outside this crate; it hands the engine validated plain values.

pub mod board;
pub mod outcome;
pub mod selector;
pub mod game;
pub mod input;
