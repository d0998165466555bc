//! State-representation core of a chess engine: board coordinates, bitboards,
//! castling rights, a packed move encoding, and a fixed-capacity undo stack.

pub mod board;
pub mod errors;
pub mod game;
