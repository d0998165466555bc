//! A game in progress: the live position and the undo stack beside it.

pub mod game_move;
pub mod history;

use vstd::prelude::*;
use crate::board::Board;
use crate::game::history::History;

verus! {

/// The engine's mutable state: the current position and the snapshots to
/// restore when a line of play is retracted.
pub struct Game {
    pub board: Board,
    pub history: History,
}

} // verus!
