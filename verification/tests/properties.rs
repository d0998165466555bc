use chess_core::board::bitboard::Bitboard;
use chess_core::board::defs::Square;
use chess_core::board::Board;
use chess_core::game::Game;
use chess_core::game::history::History;

#[test]
fn union_is_associative_with_empty_identity() {
    let a = Bitboard::from(0x0123_4567_89AB_CDEF);
    let b = Bitboard::from(0xF0F0_F0F0_F0F0_F0F0);
    let c = Bitboard::from(0x8000_0000_0000_0001);

    assert_eq!(a.bitor(b).bitor(c), a.bitor(b.bitor(c)));
    assert_eq!(a.bitor(b), b.bitor(a));
    assert_eq!(a.bitor(Bitboard::empty()), a);
}

#[test]
fn intersection_has_full_identity_and_empty_absorber() {
    let a = Bitboard::from(0x0123_4567_89AB_CDEF);
    let b = Bitboard::from(0xF0F0_F0F0_F0F0_F0F0);
    let c = Bitboard::from(0x8000_0000_0000_0001);

    assert_eq!(a.bitand(b).bitand(c), a.bitand(b.bitand(c)));
    assert_eq!(a.bitand(b), b.bitand(a));
    assert_eq!(a.bitand(Bitboard::full()), a);
    assert_eq!(a.bitand(Bitboard::empty()), Bitboard::empty());
}

#[test]
fn mask_projection_keeps_only_the_matching_square() {
    for i in 0u8..=63 {
        let sq1 = Square::try_from(i).unwrap();
        let mask = Bitboard::square_mask(sq1);
        assert_eq!(mask.get_square(sq1), mask);
        for j in 0u8..=63 {
            if i != j {
                let sq2 = Square::try_from(j).unwrap();
                assert_eq!(mask.get_square(sq2), Bitboard::empty());
            }
        }
    }
}

#[test]
fn empty_board_is_all_zero() {
    let board = Board::empty();
    for bb in board.bb_pieces {
        assert_eq!(bb.0, 0);
    }
    for bb in board.bb_colors {
        assert_eq!(bb.0, 0);
    }
    assert_eq!(board.castling_rights.0, 0);
}

#[test]
fn game_aggregates_board_and_history() {
    let game = Game {
        board: Board::empty(),
        history: History::default(),
    };
    assert_eq!(game.board, Board::empty());
    assert_eq!(game.history.idx, 0);
}
