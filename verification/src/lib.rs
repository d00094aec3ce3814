//! Rules engine for a Banqi-style ("dark chess") board game: a 4x8 grid of
//! face-down pieces, rank-based capture with two special exceptions, a cannon
//! that captures by jumping, turns derived from the first reveal, and a
//! single-selection interaction model.

pub mod game;
pub mod laws;
pub mod piece;
pub mod rank;
