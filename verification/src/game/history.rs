//! A fixed-capacity stack of board snapshots for make/unmake search.

use vstd::prelude::*;
use crate::board::Board;
use crate::errors::ChessError;

verus! {

/// The capacity of a history: a deliberate bound matching a plausible
/// maximum game length in plies.
pub const MAX_HISTORY: usize = 1024;

/// An undo stack: `MAX_HISTORY` pre-allocated board slots plus the index of
/// the next free slot. Slots at or beyond `idx` are stale: only the count
/// ever changes on pop or clear, so push and pop stay allocation-free.
pub struct History {
    pub boards: Vec<Board>,
    pub idx: usize,
}

impl History {
    /// The slot storage always holds exactly `MAX_HISTORY` boards and the
    /// count never runs past it.
    pub open spec fn wf(self) -> bool {
        self.boards@.len() == MAX_HISTORY && self.idx <= MAX_HISTORY
    }

    /// The live content: the pushed snapshots in order, oldest first.
    pub open spec fn stack(self) -> Seq<Board> {
        self.boards@.take(self.idx as int)
    }

    /// Stores a snapshot at the current count and increments the count, or
    /// fails with `CapacityExceeded` when the stack is full, storing
    /// nothing and leaving the history unchanged.
    pub fn push(&mut self, board: Board) -> (r: Result<(), ChessError>)
        requires
            old(self).wf(),
        ensures
            final(self).wf(),
            old(self).idx < MAX_HISTORY ==> {
                &&& r == Ok::<(), ChessError>(())
                &&& final(self).idx == old(self).idx + 1
                &&& final(self).stack() == old(self).stack().push(board)
            },
            old(self).idx >= MAX_HISTORY ==> {
                &&& r == Err::<(), ChessError>(ChessError::CapacityExceeded)
                &&& *final(self) == *old(self)
            },
    {
        if self.idx >= MAX_HISTORY {
            return Err(ChessError::CapacityExceeded);
        }
        self.boards[self.idx] = board;
        self.idx = self.idx + 1;
        proof {
            assert(self.stack() =~= old(self).stack().push(board));
        }
        Ok(())
    }

    /// The most recently pushed snapshot, without removing it; nothing when
    /// the stack is empty.
    pub fn peek(&self) -> (r: Option<Board>)
        requires
            self.wf(),
        ensures
            self.idx == 0 ==> r is None,
            self.idx > 0 ==> r == Some(self.stack().last()),
    {
        if self.idx == 0 {
            None
        } else {
            Some(self.boards[self.idx - 1])
        }
    }

    /// Removes and returns the most recently pushed snapshot, or nothing
    /// when the stack is empty. Only the count moves: the vacated slot is
    /// not zeroed, and is never read again while it stays above the count.
    pub fn pop(&mut self) -> (r: Option<Board>)
        requires
            old(self).wf(),
        ensures
            final(self).wf(),
            old(self).idx == 0 ==> r is None && *final(self) == *old(self),
            old(self).idx > 0 ==> {
                &&& r == Some(old(self).stack().last())
                &&& final(self).idx == old(self).idx - 1
                &&& final(self).stack() == old(self).stack().drop_last()
            },
    {
        if self.idx == 0 {
            return None;
        }
        self.idx = self.idx - 1;
        proof {
            assert(self.stack() =~= old(self).stack().drop_last());
        }
        Some(self.boards[self.idx])
    }

    /// Resets the count to zero without touching the stored boards; every
    /// later peek or pop finds the stack empty until something is pushed.
    pub fn clear(&mut self)
        ensures
            final(self).idx == 0,
            final(self).boards == old(self).boards,
            final(self).stack() == Seq::<Board>::empty(),
    {
        self.idx = 0;
        proof {
            assert(self.stack() =~= Seq::<Board>::empty());
        }
    }
}

impl Default for History {
    /// A fresh history: every slot pre-filled with the empty board and the
    /// count at zero.
    fn default() -> (r: History)
        ensures
            r.wf(),
            r.idx == 0,
            r.stack() == Seq::<Board>::empty(),
            forall|i: int| 0 <= i < MAX_HISTORY ==> r.boards@[i].is_empty(),
    {
        let mut boards: Vec<Board> = Vec::new();
        let mut i: usize = 0;
        while i < MAX_HISTORY
            invariant
                i <= MAX_HISTORY,
                boards@.len() == i,
                forall|j: int| 0 <= j < i ==> boards@[j].is_empty(),
            decreases MAX_HISTORY - i,
        {
            boards.push(Board::empty());
            i = i + 1;
        }
        let r = History { boards, idx: 0 };
        proof {
            assert(r.stack() =~= Seq::<Board>::empty());
        }
        r
    }
}

/// Pushing a snapshot and then popping returns exactly that snapshot and
/// restores the stack to its value before the push.
pub proof fn lemma_push_then_pop(s: Seq<Board>, b: Board)
    ensures
        s.push(b).last() == b,
        s.push(b).drop_last() == s,
{
    assert(s.push(b).drop_last() =~= s);
}

} // verus!
