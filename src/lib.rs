//! A Go board: the grid of stones, whose turn it is, move legality and
//! move application, with a pluggable source of moves.

pub mod board;
pub mod laws;
pub mod piece;
pub mod player;
pub mod text;
