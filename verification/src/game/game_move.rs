//! A 16-bit packed encoding of one ply: source square, target square and a
//! 4-bit flag nibble, laid out `FFFFTTTTTTSSSSSS`.

use vstd::prelude::*;
use crate::board::defs::Square;

verus! {

/// Mask of the flag nibble, bits 12 through 15.
pub const FLAG_MASK: u16 = 0b1111_0000_0000_0000;

/// Mask of the target square field, bits 6 through 11.
pub const TARGET_MASK: u16 = 0b0000_1111_1100_0000;

/// Mask of the source square field, bits 0 through 5.
pub const SOURCE_MASK: u16 = 0b0000_0000_0011_1111;

/// Position of the flag nibble.
pub const FLAG_SHIFT: u16 = 12;

/// Position of the target square field.
pub const TARGET_SHIFT: u16 = 6;

/// A move on a board, packed into one `u16` for cache-friendly move lists.
/// It carries no piece kind and no board reference: it is meaningful only
/// relative to an external board, and no flag pattern is validated at
/// construction — policy belongs to the move generator.
#[derive(Debug, Clone, Copy, PartialEq, Eq)]
pub struct GameMove(pub u16);

/// The flag nibble values a move generator assigns. Bit 2 marks a
/// promotion, and bits 0 and 1 then select the promoted piece kind; bit 1
/// independently marks a capture and bit 0 an en passant capture; zero is a
/// quiet move.
pub struct MoveFlags;

impl MoveFlags {
    pub const NONE: u16 = 0b0000;

    pub const EN_PASSANT: u16 = 0b0001;

    pub const CAPTURE: u16 = 0b0010;

    pub const PROMOTE_KNIGHT: u16 = 0b0100;

    pub const PROMOTE_BISHOP: u16 = 0b0101;

    pub const PROMOTE_ROOK: u16 = 0b0110;

    pub const PROMOTE_QUEEN: u16 = 0b0111;
}

impl GameMove {
    /// The source square field: bits 0 through 5 of the packed value.
    pub open spec fn spec_source(self) -> u16 {
        self.0 & SOURCE_MASK
    }

    /// The target square field: bits 6 through 11 of the packed value.
    pub open spec fn spec_target(self) -> u16 {
        (self.0 & TARGET_MASK) >> TARGET_SHIFT
    }

    /// The flag nibble: bits 12 through 15 of the packed value.
    pub open spec fn spec_flag(self) -> u16 {
        (self.0 & FLAG_MASK) >> FLAG_SHIFT
    }

    /// Packs a move losslessly: the two squares and the low four bits of
    /// `flags` are recovered exactly by the three accessors, whatever the
    /// flag pattern means.
    pub fn new(source: Square, target: Square, flags: u16) -> (r: GameMove)
        ensures
            r.spec_source() as int == source@,
            r.spec_target() as int == target@,
            r.spec_flag() == (flags & 0xFu16),
    {
        let flag_part = flags << FLAG_SHIFT;
        let source_part = source.index() as u16;
        let target_part = (target.index() as u16) << TARGET_SHIFT;
        let packed = flag_part | source_part | target_part;
        proof {
            let s: u16 = source@ as u16;
            let t: u16 = target@ as u16;
            assert(packed == (flags << 12) | s | (t << 6));
            assert(s < 64 && t < 64 ==> (((flags << 12) | s | (t << 6)) & 0x3Fu16) == s)
                by (bit_vector);
            assert(s < 64 && t < 64 ==> ((((flags << 12) | s | (t << 6)) & 0x0FC0u16) >> 6) == t)
                by (bit_vector);
            assert(s < 64 && t < 64
                ==> ((((flags << 12) | s | (t << 6)) & 0xF000u16) >> 12) == (flags & 0xFu16))
                by (bit_vector);
        }
        GameMove(packed)
    }

    /// The raw 4-bit flag nibble, for the caller to interpret against the
    /// `MoveFlags` constants.
    pub fn flag(&self) -> (r: u16)
        ensures
            r == self.spec_flag(),
    {
        (self.0 & FLAG_MASK) >> FLAG_SHIFT
    }

    /// The target square's flat index, `0..=63`.
    pub fn target(&self) -> (r: u16)
        ensures
            r == self.spec_target(),
    {
        (self.0 & TARGET_MASK) >> TARGET_SHIFT
    }

    /// The source square's flat index, `0..=63`.
    pub fn source(&self) -> (r: u16)
        ensures
            r == self.spec_source(),
    {
        self.0 & SOURCE_MASK
    }
}

} // verus!
