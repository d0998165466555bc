//! A 64-bit set of squares: bit `i` set means square `i` is a member.

use vstd::prelude::*;
use crate::board::defs::Square;

verus! {

/// A set of squares stored as one `u64`, bit `i` for the square with flat
/// index `i`. Every bit pattern is a valid bitboard; all combinators are
/// total and return new values rather than mutating.
#[derive(Debug, Clone, Copy, PartialEq, Eq)]
pub struct Bitboard(pub u64);

/// The one-hot bitboard holding exactly the square with flat index `sq@`.
pub open spec fn spec_square_mask(sq: Square) -> Bitboard {
    Bitboard(1u64 << sq@)
}

impl Bitboard {
    /// The set intersection of `self` and `other`, bit for bit.
    pub open spec fn spec_and(self, other: Bitboard) -> Bitboard {
        Bitboard(self.0 & other.0)
    }

    /// The set union of `self` and `other`, bit for bit.
    pub open spec fn spec_or(self, other: Bitboard) -> Bitboard {
        Bitboard(self.0 | other.0)
    }

    /// The empty set: no bit set.
    pub fn empty() -> (r: Bitboard)
        ensures
            r.0 == 0u64,
    {
        Bitboard(0)
    }

    /// The full set: every bit set.
    pub fn full() -> (r: Bitboard)
        ensures
            r.0 == u64::MAX,
    {
        Bitboard(0xffff_ffff_ffff_ffff)
    }

    /// A bitboard holding exactly the given raw bits; total, since every
    /// bit pattern is meaningful.
    pub fn from(value: u64) -> (r: Bitboard)
        ensures
            r.0 == value,
    {
        Bitboard(value)
    }

    /// The one-hot bitboard for a single square.
    pub fn square_mask(square: Square) -> (r: Bitboard)
        ensures
            r == spec_square_mask(square),
    {
        Bitboard::from(1u64 << square.index())
    }

    /// Projects `self` onto one square: the one-hot mask of `square`
    /// intersected with `self`. The result is either that mask (the square
    /// is a member) or the empty bitboard (it is not).
    pub fn get_square(self, square: Square) -> (r: Bitboard)
        ensures
            r == spec_square_mask(square).spec_and(self),
    {
        Self::square_mask(square).bitand(self)
    }

    /// Set intersection.
    pub fn bitand(self, rhs: Bitboard) -> (r: Bitboard)
        ensures
            r == self.spec_and(rhs),
    {
        Bitboard(self.0 & rhs.0)
    }

    /// Set union.
    pub fn bitor(self, rhs: Bitboard) -> (r: Bitboard)
        ensures
            r == self.spec_or(rhs),
    {
        Bitboard(self.0 | rhs.0)
    }
}

/// Union is associative and commutative, and the empty bitboard is its
/// identity.
pub proof fn lemma_or_algebra(a: Bitboard, b: Bitboard, c: Bitboard)
    ensures
        a.spec_or(b).spec_or(c) == a.spec_or(b.spec_or(c)),
        a.spec_or(b) == b.spec_or(a),
        a.spec_or(Bitboard(0)) == a,
{
    let (x, y, z) = (a.0, b.0, c.0);
    assert((x | y) | z == x | (y | z)) by (bit_vector);
    assert(x | y == y | x) by (bit_vector);
    assert(x | 0u64 == x) by (bit_vector);
}

/// Intersection is associative and commutative; the full bitboard is its
/// identity and the empty bitboard absorbs it.
pub proof fn lemma_and_algebra(a: Bitboard, b: Bitboard, c: Bitboard)
    ensures
        a.spec_and(b).spec_and(c) == a.spec_and(b.spec_and(c)),
        a.spec_and(b) == b.spec_and(a),
        a.spec_and(Bitboard(u64::MAX)) == a,
        a.spec_and(Bitboard(0)) == Bitboard(0),
{
    let (x, y, z) = (a.0, b.0, c.0);
    assert((x & y) & z == x & (y & z)) by (bit_vector);
    assert(x & y == y & x) by (bit_vector);
    assert(x & 0xffff_ffff_ffff_ffffu64 == x) by (bit_vector);
    assert(x & 0u64 == 0u64) by (bit_vector);
}

/// Projecting a one-hot mask onto a square keeps the mask when the squares
/// agree and leaves the empty bitboard when they differ.
pub proof fn lemma_mask_projection(sq1: Square, sq2: Square)
    ensures
        sq1 == sq2 ==> spec_square_mask(sq2).spec_and(spec_square_mask(sq1))
            == spec_square_mask(sq1),
        sq1 != sq2 ==> spec_square_mask(sq2).spec_and(spec_square_mask(sq1))
            == Bitboard(0),
{
    crate::board::defs::lemma_square_index_of(sq1);
    crate::board::defs::lemma_square_index_of(sq2);
    let i = sq1@ as u64;
    let j = sq2@ as u64;
    assert((1u64 << i) & (1u64 << i) == (1u64 << i)) by (bit_vector);
    if sq1 != sq2 {
        assert(i != j);
        assert(i != j && i < 64 && j < 64 ==> ((1u64 << j) & (1u64 << i) == 0u64))
            by (bit_vector);
    }
}

} // verus!
