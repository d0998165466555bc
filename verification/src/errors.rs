//! Error values shared by the decoding and history components.

use vstd::prelude::*;

verus! {

/// A recoverable failure surfaced to the immediate caller: a raw square index
/// outside `0..=63`, an unrecognized character during piece or castling-rights
/// decoding (carrying the offending character), or a push onto a full history.
#[derive(Debug, Clone, Copy, PartialEq, Eq)]
pub enum ChessError {
    RangeError,
    ParseError(char),
    CapacityExceeded,
}

} // verus!
