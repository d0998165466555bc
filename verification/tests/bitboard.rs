use chess_core::board::bitboard::Bitboard;
use chess_core::board::defs::Square;

#[test]
fn square_mask_produces_correct_bit() {
    let a1 = Square::A1;
    let h8 = Square::H8;

    assert_eq!(Bitboard::square_mask(a1).0, 1u64 << a1.index());
    assert_eq!(Bitboard::square_mask(h8).0, 1u64 << h8.index());
}

#[test]
fn get_square_returns_masked_value() {
    let mut bb = Bitboard::from(0);
    bb = bb.bitor(Bitboard::square_mask(Square::A1));
    bb = bb.bitor(Bitboard::square_mask(Square::C3));

    assert_eq!(bb.get_square(Square::A1).0, 1u64 << Square::A1.index());
    assert_eq!(bb.get_square(Square::C3).0, 1u64 << Square::C3.index());
    assert_eq!(bb.get_square(Square::H8).0, 0);
}

#[test]
fn bitand_works() {
    let a1 = Bitboard::square_mask(Square::A1);
    let b1 = Bitboard::square_mask(Square::B1);

    let both = a1.bitor(b1);

    assert_eq!(both.bitand(a1).0, a1.0);
    assert_eq!(both.bitand(b1).0, b1.0);
    assert_eq!(a1.bitand(b1).0, 0);
}

#[test]
fn bitor_works() {
    let a1 = Bitboard::square_mask(Square::A1);
    let b1 = Bitboard::square_mask(Square::B1);

    let combined = a1.bitor(b1);
    assert_eq!(combined.0, a1.0 | b1.0);
}

#[test]
fn from_u64_initializes_correctly() {
    let bb = Bitboard::from(0xF0F0_F0F0_F0F0_F0F0);
    assert_eq!(bb.0, 0xF0F0_F0F0_F0F0_F0F0);
}
