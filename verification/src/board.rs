//! A position snapshot: per-piece-kind and per-color bitboards plus
//! castling rights.

pub mod bitboard;
pub mod castling;
pub mod defs;

use vstd::prelude::*;
use crate::board::bitboard::Bitboard;
use crate::board::castling::CastlingRights;

verus! {

/// How many piece kinds a board tracks, one universal bitboard each.
pub const PIECE_KINDS: usize = 6;

/// How many colors a board tracks, one occupancy bitboard each.
pub const COLORS: usize = 2;

/// A passive snapshot of a position: one bitboard per piece kind (both
/// colors merged), one occupancy bitboard per color, and the castling
/// rights. A plain value, copied and compared structurally; keeping the
/// piece and color bitboards consistent with each other is the move
/// appliers' responsibility, not this type's.
#[derive(Debug, Clone, Copy, PartialEq, Eq)]
pub struct Board {
    pub bb_pieces: [Bitboard; PIECE_KINDS],
    pub bb_colors: [Bitboard; COLORS],
    pub castling_rights: CastlingRights,
}

impl Board {
    /// No square occupied and no castling rights: the zero value used to
    /// pre-fill history slots.
    pub open spec fn is_empty(self) -> bool {
        &&& forall|i: int| 0 <= i < PIECE_KINDS ==> self.bb_pieces@[i].0 == 0u64
        &&& forall|i: int| 0 <= i < COLORS ==> self.bb_colors@[i].0 == 0u64
        &&& self.castling_rights.0 == 0u8
    }

    /// The empty board: all bitboards empty, no castling rights.
    pub fn empty() -> (r: Board)
        ensures
            r.is_empty(),
    {
        let b = Board {
            bb_pieces: [
                Bitboard(0),
                Bitboard(0),
                Bitboard(0),
                Bitboard(0),
                Bitboard(0),
                Bitboard(0),
            ],
            bb_colors: [Bitboard(0), Bitboard(0)],
            castling_rights: CastlingRights(0),
        };
        b
    }
}

} // verus!
