use chess_core::board::bitboard::Bitboard;
use chess_core::board::castling::CastlingRights;
use chess_core::board::{Board, COLORS, PIECE_KINDS};
use chess_core::errors::ChessError;
use chess_core::game::history::{History, MAX_HISTORY};

fn full_board() -> Board {
    Board {
        bb_colors: [Bitboard::full(); COLORS],
        bb_pieces: [Bitboard::full(); PIECE_KINDS],
        castling_rights: CastlingRights::none(),
    }
}

#[test]
fn push() {
    let mut history = History::default();
    let board = full_board();

    history.push(board).expect("Push should succeed");

    assert_eq!(history.peek(), Some(board));
    assert_eq!(history.idx, 1);
}

#[test]
fn push_at_full() {
    let mut history = History::default();

    let board = full_board();

    history.idx = MAX_HISTORY;

    history.push(board).expect_err("Push should not succeed");

    assert_eq!(history.peek(), Some(Board::empty()));
    assert_eq!(history.idx, MAX_HISTORY);
}

#[test]
fn capacity_is_exactly_max_history() {
    let mut history = History::default();
    let board = full_board();

    for expected_count in 1..=MAX_HISTORY {
        history.push(board).expect("Push should succeed");
        assert_eq!(history.idx, expected_count);
    }

    assert_eq!(history.push(board), Err(ChessError::CapacityExceeded));
    assert_eq!(history.idx, MAX_HISTORY);
}

#[test]
fn pop_on_empty_returns_nothing() {
    let mut history = History::default();
    assert_eq!(history.pop(), None);
    assert_eq!(history.peek(), None);
    assert_eq!(history.idx, 0);
}

#[test]
fn push_then_pop_restores_the_count() {
    let mut history = History::default();
    history.push(Board::empty()).expect("Push should succeed");
    let board = full_board();
    let count_before = history.idx;

    history.push(board).expect("Push should succeed");
    assert_eq!(history.pop(), Some(board));
    assert_eq!(history.idx, count_before);
}

#[test]
fn clear_empties_a_nonempty_history() {
    let mut history = History::default();
    history.push(full_board()).expect("Push should succeed");
    history.push(Board::empty()).expect("Push should succeed");

    history.clear();

    assert_eq!(history.idx, 0);
    assert_eq!(history.peek(), None);
    assert_eq!(history.pop(), None);
}
