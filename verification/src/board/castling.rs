//! Castling rights: four independent permissions stored as a 4-bit flag set.

use vstd::prelude::*;
use crate::errors::ChessError;

verus! {

/// Bit for white's king-side castling right.
pub const CASTLE_WK: u8 = 0b0001;

/// Bit for white's queen-side castling right.
pub const CASTLE_WQ: u8 = 0b0010;

/// Bit for black's king-side castling right.
pub const CASTLE_BK: u8 = 0b0100;

/// Bit for black's queen-side castling right.
pub const CASTLE_BQ: u8 = 0b1000;

/// The four castling permissions as independent bits, so that multiple
/// rights combine by bitwise OR. Equality is bitwise.
#[derive(Debug, Clone, Copy, PartialEq, Eq)]
pub struct CastlingRights(pub u8);

/// The bit denoted by one castling letter: `K`, `Q`, `k`, `q` name the
/// white king-side, white queen-side, black king-side and black queen-side
/// rights; every other character is rejected.
pub open spec fn castling_bit(c: char) -> Option<u8> {
    if c == 'K' {
        Some(CASTLE_WK)
    } else if c == 'Q' {
        Some(CASTLE_WQ)
    } else if c == 'k' {
        Some(CASTLE_BK)
    } else if c == 'q' {
        Some(CASTLE_BQ)
    } else {
        None
    }
}

/// The rights denoted by a whole string, scanning left to right: the OR of
/// each letter's bit, or the first character that is no castling letter.
/// The empty string denotes no rights at all.
pub open spec fn parse_castling(s: Seq<char>) -> Result<u8, char>
    decreases s.len(),
{
    if s.len() == 0 {
        Ok(0u8)
    } else {
        match castling_bit(s[0]) {
            Some(b) => match parse_castling(s.drop_first()) {
                Ok(rest) => Ok(b | rest),
                Err(c) => Err(c),
            },
            None => Err(s[0]),
        }
    }
}

impl CastlingRights {
    /// All four rights.
    pub fn all() -> (r: CastlingRights)
        ensures
            r.0 == 0b1111u8,
    {
        CastlingRights(0b1111)
    }

    /// No rights.
    pub fn none() -> (r: CastlingRights)
        ensures
            r.0 == 0b0000u8,
    {
        CastlingRights(0b0000)
    }

    /// Parses a rights string letter by letter, OR-ing in the bit for each
    /// recognized letter; the first unrecognized character aborts the whole
    /// parse with a `ParseError` naming it, retaining nothing. Letter order
    /// is irrelevant and duplicate letters are idempotent, since OR is.
    pub fn try_from(value: &str) -> (r: Result<CastlingRights, ChessError>)
        ensures
            r == match parse_castling(value@) {
                Ok(bits) => Ok::<CastlingRights, ChessError>(CastlingRights(bits)),
                Err(c) => Err::<CastlingRights, ChessError>(ChessError::ParseError(c)),
            },
    {
        let len = value.unicode_len();
        let mut rights: u8 = 0;
        let mut i: usize = 0;
        proof {
            assert(value@.skip(0) =~= value@);
            match parse_castling(value@) {
                Ok(rest) => {
                    assert(0u8 | rest == rest) by (bit_vector);
                },
                Err(_) => {},
            }
        }
        while i < len
            invariant
                i <= len,
                len == value@.len(),
                match parse_castling(value@.skip(i as int)) {
                    Ok(rest) => parse_castling(value@) == Ok::<u8, char>(rights | rest),
                    Err(c) => parse_castling(value@) == Err::<u8, char>(c),
                },
            decreases len - i,
        {
            let c = value.get_char(i);
            let bit: u8 = match c {
                'K' => CASTLE_WK,
                'Q' => CASTLE_WQ,
                'k' => CASTLE_BK,
                'q' => CASTLE_BQ,
                _ => {
                    proof {
                        assert(value@.skip(i as int)[0] == c);
                    }
                    return Err(ChessError::ParseError(c));
                },
            };
            proof {
                lemma_parse_castling_step(value@, i as int, rights, bit);
            }
            rights = rights | bit;
            i = i + 1;
        }
        proof {
            assert(value@.skip(len as int) =~= Seq::<char>::empty());
            assert(rights | 0u8 == rights) by (bit_vector);
        }
        Ok(CastlingRights(rights))
    }
}

/// A successful parse grants exactly the rights whose letters occur in the
/// string: each of the four bits is set if and only if its letter is
/// present somewhere, and no other bit is ever set.
pub proof fn lemma_castling_letters_decide(s: Seq<char>)
    requires
        parse_castling(s) is Ok,
    ensures
        parse_castling(s) matches Ok(bits) ==> {
            &&& bits < 16
            &&& (bits & CASTLE_WK != 0 <==> s.contains('K'))
            &&& (bits & CASTLE_WQ != 0 <==> s.contains('Q'))
            &&& (bits & CASTLE_BK != 0 <==> s.contains('k'))
            &&& (bits & CASTLE_BQ != 0 <==> s.contains('q'))
        },
    decreases s.len(),
{
    let bits = parse_castling(s)->Ok_0;
    if s.len() == 0 {
        assert(bits == 0);
        assert(0u8 & 1u8 == 0 && 0u8 & 2u8 == 0 && 0u8 & 4u8 == 0 && 0u8 & 8u8 == 0)
            by (bit_vector);
    } else {
        let c = s[0];
        let b = castling_bit(c)->Some_0;
        let rest = s.drop_first();
        let rb = parse_castling(rest)->Ok_0;
        lemma_castling_letters_decide(rest);
        lemma_contains_head_or_tail(s, 'K');
        lemma_contains_head_or_tail(s, 'Q');
        lemma_contains_head_or_tail(s, 'k');
        lemma_contains_head_or_tail(s, 'q');
        assert(bits == b | rb);
        assert(1u8 & 1u8 != 0 && 2u8 & 1u8 == 0 && 4u8 & 1u8 == 0 && 8u8 & 1u8 == 0
            && 1u8 & 2u8 == 0 && 2u8 & 2u8 != 0 && 4u8 & 2u8 == 0 && 8u8 & 2u8 == 0
            && 1u8 & 4u8 == 0 && 2u8 & 4u8 == 0 && 4u8 & 4u8 != 0 && 8u8 & 4u8 == 0
            && 1u8 & 8u8 == 0 && 2u8 & 8u8 == 0 && 4u8 & 8u8 == 0 && 8u8 & 8u8 != 0)
            by (bit_vector);
        assert forall|m: u8| m == 1 || m == 2 || m == 4 || m == 8 implies
            ((b | rb) & m != 0 <==> (b & m != 0 || rb & m != 0)) by {
            assert((b | rb) & m != 0 <==> (b & m != 0 || rb & m != 0)) by (bit_vector);
        }
        assert(b < 16 && rb < 16 ==> (b | rb) < 16) by (bit_vector);
        assert(b == 1 || b == 2 || b == 4 || b == 8);
    }
}

/// Two rights strings made of the same set of castling letters parse to the
/// same rights, whatever the letter order and however often each letter
/// repeats.
pub proof fn lemma_castling_order_irrelevant(s1: Seq<char>, s2: Seq<char>)
    requires
        parse_castling(s1) is Ok,
        parse_castling(s2) is Ok,
        s1.contains('K') == s2.contains('K'),
        s1.contains('Q') == s2.contains('Q'),
        s1.contains('k') == s2.contains('k'),
        s1.contains('q') == s2.contains('q'),
    ensures
        parse_castling(s1) == parse_castling(s2),
{
    lemma_castling_letters_decide(s1);
    lemma_castling_letters_decide(s2);
    let b1 = parse_castling(s1)->Ok_0;
    let b2 = parse_castling(s2)->Ok_0;
    assert(b1 < 16 && b2 < 16 && (b1 & 1u8 != 0 <==> b2 & 1u8 != 0)
        && (b1 & 2u8 != 0 <==> b2 & 2u8 != 0) && (b1 & 4u8 != 0 <==> b2 & 4u8 != 0)
        && (b1 & 8u8 != 0 <==> b2 & 8u8 != 0) ==> b1 == b2) by (bit_vector);
}

/// A sequence contains a character exactly when its head is that character
/// or its tail contains it.
proof fn lemma_contains_head_or_tail(s: Seq<char>, x: char)
    requires
        s.len() > 0,
    ensures
        s.contains(x) <==> (s[0] == x || s.drop_first().contains(x)),
{
    let rest = s.drop_first();
    if s.contains(x) {
        let i = choose|i: int| 0 <= i < s.len() && s[i] == x;
        if i > 0 {
            assert(rest[i - 1] == x);
            assert(rest.contains(x));
        }
    }
    if rest.contains(x) {
        let j = choose|j: int| 0 <= j < rest.len() && rest[j] == x;
        assert(s[j + 1] == x);
        assert(s.contains(x));
    }
    if s[0] == x {
        assert(s.contains(x));
    }
}

/// One scanning step: when the character at position `i` carries a castling
/// bit, folding that bit into the accumulator commutes with parsing the
/// rest of the string.
proof fn lemma_parse_castling_step(s: Seq<char>, i: int, acc: u8, bit: u8)
    requires
        0 <= i < s.len(),
        castling_bit(s[i]) == Some(bit),
    ensures
        match parse_castling(s.skip(i + 1)) {
            Ok(rest) => parse_castling(s.skip(i)) == Ok::<u8, char>(bit | rest),
            Err(c) => parse_castling(s.skip(i)) == Err::<u8, char>(c),
        },
        forall|rest: u8| acc | (bit | rest) == (acc | bit) | rest,
{
    assert(s.skip(i)[0] == s[i]);
    assert(s.skip(i).drop_first() =~= s.skip(i + 1));
    assert forall|rest: u8| acc | (bit | rest) == (acc | bit) | rest by {
        assert(acc | (bit | rest) == (acc | bit) | rest) by (bit_vector);
    }
}

} // verus!
