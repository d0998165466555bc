//! The coordinate system: squares, files, ranks, and piece kinds.
//!
//! A [`Square`] identifies one of the 64 board cells by a flat index,
//! file-major within rank (`index = rank * 8 + file`); rank 1 occupies
//! indices 0 through 7 and file A is the lowest index within each rank.

use vstd::prelude::*;
use crate::errors::ChessError;

verus! {

/// One of the six piece kinds. Color is tracked separately, by the color
/// bitboards of a board, so a `Piece` has no color component.
#[derive(Debug, Clone, Copy, PartialEq, Eq)]
pub enum Piece {
    Pawn,
    Knight,
    Bishop,
    Rook,
    Queen,
    King,
}

/// The piece kind denoted by an ASCII letter, case-insensitively:
/// exactly `p n b r q k` (either case) decode; every other character is
/// rejected.
pub open spec fn piece_of_char(c: char) -> Option<Piece> {
    if c == 'p' || c == 'P' {
        Some(Piece::Pawn)
    } else if c == 'n' || c == 'N' {
        Some(Piece::Knight)
    } else if c == 'b' || c == 'B' {
        Some(Piece::Bishop)
    } else if c == 'r' || c == 'R' {
        Some(Piece::Rook)
    } else if c == 'q' || c == 'Q' {
        Some(Piece::Queen)
    } else if c == 'k' || c == 'K' {
        Some(Piece::King)
    } else {
        None
    }
}

impl Piece {
    /// Decodes a single ASCII piece letter, case-insensitively; any other
    /// character fails with a `ParseError` carrying that character.
    pub fn try_from(value: char) -> (r: Result<Piece, ChessError>)
        ensures
            r == match piece_of_char(value) {
                Some(p) => Ok::<Piece, ChessError>(p),
                None => Err::<Piece, ChessError>(ChessError::ParseError(value)),
            },
    {
        match value {
            'p' | 'P' => Ok(Piece::Pawn),
            'n' | 'N' => Ok(Piece::Knight),
            'b' | 'B' => Ok(Piece::Bishop),
            'r' | 'R' => Ok(Piece::Rook),
            'q' | 'Q' => Ok(Piece::Queen),
            'k' | 'K' => Ok(Piece::King),
            _ => Err(ChessError::ParseError(value)),
        }
    }
}

/// One of the 8 ranks, viewed as its index `0..=7` (rank 1 is index 0).
#[derive(Debug, Clone, Copy, PartialEq, Eq)]
pub enum Rank {
    R1,
    R2,
    R3,
    R4,
    R5,
    R6,
    R7,
    R8,
}

impl View for Rank {
    type V = int;

    open spec fn view(&self) -> int {
        match *self {
            Rank::R1 => 0,
            Rank::R2 => 1,
            Rank::R3 => 2,
            Rank::R4 => 3,
            Rank::R5 => 4,
            Rank::R6 => 5,
            Rank::R7 => 6,
            Rank::R8 => 7,
        }
    }
}

impl Rank {
    /// The rank holding the square with the given raw index: index `div` 8.
    pub fn from(value: u8) -> (r: Rank)
        requires
            value <= 63,
        ensures
            r@ == value as int / 8,
    {
        match value / 8 {
            0 => Rank::R1,
            1 => Rank::R2,
            2 => Rank::R3,
            3 => Rank::R4,
            4 => Rank::R5,
            5 => Rank::R6,
            6 => Rank::R7,
            _ => Rank::R8,
        }
    }

    /// This rank's index, `0..=7`.
    pub fn index(self) -> (r: u8)
        ensures
            r as int == self@,
    {
        match self {
            Rank::R1 => 0,
            Rank::R2 => 1,
            Rank::R3 => 2,
            Rank::R4 => 3,
            Rank::R5 => 4,
            Rank::R6 => 5,
            Rank::R7 => 6,
            Rank::R8 => 7,
        }
    }
}

/// One of the 8 files, viewed as its index `0..=7` (file A is index 0).
#[derive(Debug, Clone, Copy, PartialEq, Eq)]
pub enum File {
    A,
    B,
    C,
    D,
    E,
    F,
    G,
    H,
}

impl View for File {
    type V = int;

    open spec fn view(&self) -> int {
        match *self {
            File::A => 0,
            File::B => 1,
            File::C => 2,
            File::D => 3,
            File::E => 4,
            File::F => 5,
            File::G => 6,
            File::H => 7,
        }
    }
}

impl File {
    /// The file holding the square with the given raw index: index `mod` 8.
    pub fn from(value: u8) -> (r: File)
        requires
            value <= 63,
        ensures
            r@ == value as int % 8,
    {
        match value % 8 {
            0 => File::A,
            1 => File::B,
            2 => File::C,
            3 => File::D,
            4 => File::E,
            5 => File::F,
            6 => File::G,
            _ => File::H,
        }
    }

    /// This file's index, `0..=7`.
    pub fn index(self) -> (r: u8)
        ensures
            r as int == self@,
    {
        match self {
            File::A => 0,
            File::B => 1,
            File::C => 2,
            File::D => 3,
            File::E => 4,
            File::F => 5,
            File::G => 6,
            File::H => 7,
        }
    }
}

/// One of the 64 board cells, viewed as its flat index `0..=63`
/// (`A1` is 0, `B1` is 1, ..., `H8` is 63).
#[derive(Debug, Clone, Copy, PartialEq, Eq)]
pub enum Square {
    A1, B1, C1, D1, E1, F1, G1, H1,
    A2, B2, C2, D2, E2, F2, G2, H2,
    A3, B3, C3, D3, E3, F3, G3, H3,
    A4, B4, C4, D4, E4, F4, G4, H4,
    A5, B5, C5, D5, E5, F5, G5, H5,
    A6, B6, C6, D6, E6, F6, G6, H6,
    A7, B7, C7, D7, E7, F7, G7, H7,
    A8, B8, C8, D8, E8, F8, G8, H8,
}

impl View for Square {
    type V = int;

    open spec fn view(&self) -> int {
        match *self {
            Square::A1 => 0,
            Square::B1 => 1,
            Square::C1 => 2,
            Square::D1 => 3,
            Square::E1 => 4,
            Square::F1 => 5,
            Square::G1 => 6,
            Square::H1 => 7,
            Square::A2 => 8,
            Square::B2 => 9,
            Square::C2 => 10,
            Square::D2 => 11,
            Square::E2 => 12,
            Square::F2 => 13,
            Square::G2 => 14,
            Square::H2 => 15,
            Square::A3 => 16,
            Square::B3 => 17,
            Square::C3 => 18,
            Square::D3 => 19,
            Square::E3 => 20,
            Square::F3 => 21,
            Square::G3 => 22,
            Square::H3 => 23,
            Square::A4 => 24,
            Square::B4 => 25,
            Square::C4 => 26,
            Square::D4 => 27,
            Square::E4 => 28,
            Square::F4 => 29,
            Square::G4 => 30,
            Square::H4 => 31,
            Square::A5 => 32,
            Square::B5 => 33,
            Square::C5 => 34,
            Square::D5 => 35,
            Square::E5 => 36,
            Square::F5 => 37,
            Square::G5 => 38,
            Square::H5 => 39,
            Square::A6 => 40,
            Square::B6 => 41,
            Square::C6 => 42,
            Square::D6 => 43,
            Square::E6 => 44,
            Square::F6 => 45,
            Square::G6 => 46,
            Square::H6 => 47,
            Square::A7 => 48,
            Square::B7 => 49,
            Square::C7 => 50,
            Square::D7 => 51,
            Square::E7 => 52,
            Square::F7 => 53,
            Square::G7 => 54,
            Square::H7 => 55,
            Square::A8 => 56,
            Square::B8 => 57,
            Square::C8 => 58,
            Square::D8 => 59,
            Square::E8 => 60,
            Square::F8 => 61,
            Square::G8 => 62,
            Square::H8 => 63,
        }
    }
}

/// The square whose flat index is `i`, for `i` in `0..=63`.
pub open spec fn square_of(i: int) -> Square {
    if i == 0 {
        Square::A1
    } else if i == 1 {
        Square::B1
    } else if i == 2 {
        Square::C1
    } else if i == 3 {
        Square::D1
    } else if i == 4 {
        Square::E1
    } else if i == 5 {
        Square::F1
    } else if i == 6 {
        Square::G1
    } else if i == 7 {
        Square::H1
    } else if i == 8 {
        Square::A2
    } else if i == 9 {
        Square::B2
    } else if i == 10 {
        Square::C2
    } else if i == 11 {
        Square::D2
    } else if i == 12 {
        Square::E2
    } else if i == 13 {
        Square::F2
    } else if i == 14 {
        Square::G2
    } else if i == 15 {
        Square::H2
    } else if i == 16 {
        Square::A3
    } else if i == 17 {
        Square::B3
    } else if i == 18 {
        Square::C3
    } else if i == 19 {
        Square::D3
    } else if i == 20 {
        Square::E3
    } else if i == 21 {
        Square::F3
    } else if i == 22 {
        Square::G3
    } else if i == 23 {
        Square::H3
    } else if i == 24 {
        Square::A4
    } else if i == 25 {
        Square::B4
    } else if i == 26 {
        Square::C4
    } else if i == 27 {
        Square::D4
    } else if i == 28 {
        Square::E4
    } else if i == 29 {
        Square::F4
    } else if i == 30 {
        Square::G4
    } else if i == 31 {
        Square::H4
    } else if i == 32 {
        Square::A5
    } else if i == 33 {
        Square::B5
    } else if i == 34 {
        Square::C5
    } else if i == 35 {
        Square::D5
    } else if i == 36 {
        Square::E5
    } else if i == 37 {
        Square::F5
    } else if i == 38 {
        Square::G5
    } else if i == 39 {
        Square::H5
    } else if i == 40 {
        Square::A6
    } else if i == 41 {
        Square::B6
    } else if i == 42 {
        Square::C6
    } else if i == 43 {
        Square::D6
    } else if i == 44 {
        Square::E6
    } else if i == 45 {
        Square::F6
    } else if i == 46 {
        Square::G6
    } else if i == 47 {
        Square::H6
    } else if i == 48 {
        Square::A7
    } else if i == 49 {
        Square::B7
    } else if i == 50 {
        Square::C7
    } else if i == 51 {
        Square::D7
    } else if i == 52 {
        Square::E7
    } else if i == 53 {
        Square::F7
    } else if i == 54 {
        Square::G7
    } else if i == 55 {
        Square::H7
    } else if i == 56 {
        Square::A8
    } else if i == 57 {
        Square::B8
    } else if i == 58 {
        Square::C8
    } else if i == 59 {
        Square::D8
    } else if i == 60 {
        Square::E8
    } else if i == 61 {
        Square::F8
    } else if i == 62 {
        Square::G8
    } else {
        Square::H8
    }
}

impl Square {
    /// The square on the given file and rank: flat index `rank * 8 + file`.
    pub fn new(file: File, rank: Rank) -> (r: Square)
        ensures
            r@ == rank@ * 8 + file@,
    {
        Square::from_index(rank.index() * 8 + file.index())
    }

    /// Validated conversion from a raw index: succeeds exactly on `0..=63`,
    /// returning the square with that index; larger values fail with a
    /// `RangeError` rather than wrapping.
    pub fn try_from(value: u8) -> (r: Result<Square, ChessError>)
        ensures
            value <= 63 ==> r == Ok::<Square, ChessError>(square_of(value as int)),
            value <= 63 ==> (r matches Ok(sq) && sq@ == value as int),
            value > 63 ==> r == Err::<Square, ChessError>(ChessError::RangeError),
    {
        if value <= 63 {
            Ok(Square::from_index(value))
        } else {
            Err(ChessError::RangeError)
        }
    }

    /// This square's flat index, `0..=63`.
    pub fn index(self) -> (r: u8)
        ensures
            r as int == self@,
            r <= 63,
    {
        match self {
            Square::A1 => 0,
            Square::B1 => 1,
            Square::C1 => 2,
            Square::D1 => 3,
            Square::E1 => 4,
            Square::F1 => 5,
            Square::G1 => 6,
            Square::H1 => 7,
            Square::A2 => 8,
            Square::B2 => 9,
            Square::C2 => 10,
            Square::D2 => 11,
            Square::E2 => 12,
            Square::F2 => 13,
            Square::G2 => 14,
            Square::H2 => 15,
            Square::A3 => 16,
            Square::B3 => 17,
            Square::C3 => 18,
            Square::D3 => 19,
            Square::E3 => 20,
            Square::F3 => 21,
            Square::G3 => 22,
            Square::H3 => 23,
            Square::A4 => 24,
            Square::B4 => 25,
            Square::C4 => 26,
            Square::D4 => 27,
            Square::E4 => 28,
            Square::F4 => 29,
            Square::G4 => 30,
            Square::H4 => 31,
            Square::A5 => 32,
            Square::B5 => 33,
            Square::C5 => 34,
            Square::D5 => 35,
            Square::E5 => 36,
            Square::F5 => 37,
            Square::G5 => 38,
            Square::H5 => 39,
            Square::A6 => 40,
            Square::B6 => 41,
            Square::C6 => 42,
            Square::D6 => 43,
            Square::E6 => 44,
            Square::F6 => 45,
            Square::G6 => 46,
            Square::H6 => 47,
            Square::A7 => 48,
            Square::B7 => 49,
            Square::C7 => 50,
            Square::D7 => 51,
            Square::E7 => 52,
            Square::F7 => 53,
            Square::G7 => 54,
            Square::H7 => 55,
            Square::A8 => 56,
            Square::B8 => 57,
            Square::C8 => 58,
            Square::D8 => 59,
            Square::E8 => 60,
            Square::F8 => 61,
            Square::G8 => 62,
            Square::H8 => 63,
        }
    }

    /// This square's file: index `mod` 8.
    pub fn file(self) -> (r: File)
        ensures
            r@ == self@ % 8,
    {
        File::from(self.index())
    }

    /// This square's rank: index `div` 8.
    pub fn rank(self) -> (r: Rank)
        ensures
            r@ == self@ / 8,
    {
        Rank::from(self.index())
    }

    fn from_index(value: u8) -> (r: Square)
        requires
            value <= 63,
        ensures
            r == square_of(value as int),
            r@ == value as int,
    {
        let r = match value {
            0 => Square::A1,
            1 => Square::B1,
            2 => Square::C1,
            3 => Square::D1,
            4 => Square::E1,
            5 => Square::F1,
            6 => Square::G1,
            7 => Square::H1,
            8 => Square::A2,
            9 => Square::B2,
            10 => Square::C2,
            11 => Square::D2,
            12 => Square::E2,
            13 => Square::F2,
            14 => Square::G2,
            15 => Square::H2,
            16 => Square::A3,
            17 => Square::B3,
            18 => Square::C3,
            19 => Square::D3,
            20 => Square::E3,
            21 => Square::F3,
            22 => Square::G3,
            23 => Square::H3,
            24 => Square::A4,
            25 => Square::B4,
            26 => Square::C4,
            27 => Square::D4,
            28 => Square::E4,
            29 => Square::F4,
            30 => Square::G4,
            31 => Square::H4,
            32 => Square::A5,
            33 => Square::B5,
            34 => Square::C5,
            35 => Square::D5,
            36 => Square::E5,
            37 => Square::F5,
            38 => Square::G5,
            39 => Square::H5,
            40 => Square::A6,
            41 => Square::B6,
            42 => Square::C6,
            43 => Square::D6,
            44 => Square::E6,
            45 => Square::F6,
            46 => Square::G6,
            47 => Square::H6,
            48 => Square::A7,
            49 => Square::B7,
            50 => Square::C7,
            51 => Square::D7,
            52 => Square::E7,
            53 => Square::F7,
            54 => Square::G7,
            55 => Square::H7,
            56 => Square::A8,
            57 => Square::B8,
            58 => Square::C8,
            59 => Square::D8,
            60 => Square::E8,
            61 => Square::F8,
            62 => Square::G8,
            _ => Square::H8,
        };
        proof {
            lemma_square_of_index(value as int);
        }
        r
    }
}

/// The flat index inverts `square_of`: converting an index `i` in `0..=63`
/// to a square and reading that square's index yields `i` again.
pub proof fn lemma_square_of_index(i: int)
    requires
        0 <= i <= 63,
    ensures
        square_of(i)@ == i,
{
}

/// `square_of` inverts the flat index: every square's index lies in
/// `0..=63`, and converting it back yields the same square.
pub proof fn lemma_square_index_of(sq: Square)
    ensures
        0 <= sq@ <= 63,
        square_of(sq@) == sq,
{
}

} // verus!
