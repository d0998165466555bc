use chess_core::board::defs::{File, Piece, Rank, Square};
use chess_core::errors::ChessError;

#[test]
fn test_piece_try_from_valid() {
    assert_eq!(Piece::try_from('p').unwrap(), Piece::Pawn);
    assert_eq!(Piece::try_from('N').unwrap(), Piece::Knight);
    assert_eq!(Piece::try_from('b').unwrap(), Piece::Bishop);
    assert_eq!(Piece::try_from('R').unwrap(), Piece::Rook);
    assert_eq!(Piece::try_from('q').unwrap(), Piece::Queen);
    assert_eq!(Piece::try_from('K').unwrap(), Piece::King);
}

#[test]
fn test_piece_try_from_invalid() {
    assert!(Piece::try_from('x').is_err());
    assert!(Piece::try_from('1').is_err());
    assert!(Piece::try_from(' ').is_err());
}

#[test]
fn test_file_roundtrip() {
    for i in 0..64 {
        let file = File::from(i);
        assert_eq!(file.index(), i % 8);
    }
}

#[test]
fn test_rank_roundtrip() {
    for i in 0..64 {
        let rank = Rank::from(i);
        assert_eq!(rank.index(), i / 8);
    }
}

#[test]
fn test_square_try_from_valid() {
    for i in 0u8..=63 {
        let sq = Square::try_from(i).unwrap();
        assert_eq!(sq.index(), i);
    }
}

#[test]
fn test_square_try_from_invalid() {
    assert!(Square::try_from(64u8).is_err());
    assert!(Square::try_from(100u8).is_err());
}

#[test]
fn piece_letters_are_case_insensitive() {
    assert_eq!(Piece::try_from('K'), Piece::try_from('k'));
    assert_eq!(Piece::try_from('K').unwrap(), Piece::King);
    assert_eq!(Piece::try_from('x'), Err(ChessError::ParseError('x')));
}

#[test]
fn square_try_from_fails_on_every_large_index() {
    for i in 64u8..=255 {
        assert_eq!(Square::try_from(i), Err(ChessError::RangeError));
    }
}

#[test]
fn square_new_packs_file_and_rank() {
    assert_eq!(Square::new(File::A, Rank::R1), Square::A1);
    assert_eq!(Square::new(File::E, Rank::R2), Square::E2);
    assert_eq!(Square::new(File::H, Rank::R8), Square::H8);
    assert_eq!(Square::new(File::E, Rank::R2).index(), 12);
}

#[test]
fn square_file_and_rank_project_the_index() {
    for i in 0u8..=63 {
        let sq = Square::try_from(i).unwrap();
        assert_eq!(sq.file().index(), i % 8);
        assert_eq!(sq.rank().index(), i / 8);
        assert_eq!(Square::new(sq.file(), sq.rank()), sq);
    }
}
