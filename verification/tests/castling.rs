use chess_core::board::castling::CastlingRights;
use chess_core::errors::ChessError;

#[test]
fn all_from_str() {
    assert_eq!(CastlingRights::try_from("kqKQ"), Ok(CastlingRights::all()));
}

#[test]
fn letter_order_is_irrelevant() {
    assert_eq!(CastlingRights::try_from("KQkq"), Ok(CastlingRights::all()));
    assert_eq!(CastlingRights::try_from("qKkQ"), Ok(CastlingRights::all()));
}

#[test]
fn empty_string_has_no_rights() {
    assert_eq!(CastlingRights::try_from(""), Ok(CastlingRights::none()));
}

#[test]
fn each_letter_sets_its_own_bit() {
    assert_eq!(CastlingRights::try_from("K").unwrap().0, 0b0001);
    assert_eq!(CastlingRights::try_from("Q").unwrap().0, 0b0010);
    assert_eq!(CastlingRights::try_from("k").unwrap().0, 0b0100);
    assert_eq!(CastlingRights::try_from("q").unwrap().0, 0b1000);
    assert_eq!(CastlingRights::try_from("Kq").unwrap().0, 0b1001);
}

#[test]
fn duplicate_letters_are_idempotent() {
    assert_eq!(CastlingRights::try_from("KKKK"), CastlingRights::try_from("K"));
}

#[test]
fn bad_letter_fails_whole_parse() {
    assert_eq!(
        CastlingRights::try_from("x"),
        Err(ChessError::ParseError('x'))
    );
    assert_eq!(
        CastlingRights::try_from("KQx"),
        Err(ChessError::ParseError('x'))
    );
    assert_eq!(
        CastlingRights::try_from("Kxq"),
        Err(ChessError::ParseError('x'))
    );
}
