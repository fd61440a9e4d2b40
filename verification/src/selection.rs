//! Cursor of a list pane: an optional index that moves up and down without
//! wrapping and never leaves the list it belongs to.

use vstd::prelude::*;

verus! {

/// The highlighted row of a list, if any.
#[derive(Debug, Clone, Copy, PartialEq, Eq)]
pub struct Selection {
    pub index: Option<usize>,
}

/// One step of list navigation.
#[derive(Debug, Clone, Copy, PartialEq, Eq)]
pub enum Move {
    Up,
    Down,
}

impl Selection {
    /// The row that navigation starts from: the highlighted row, or the first
    /// row when nothing is highlighted.
    pub open spec fn position(self) -> usize {
        match self.index {
            Some(i) => i,
            None => 0,
        }
    }

    /// The highlighted row, if there is one, lies inside a list of `len` rows.
    /// Nothing is asked of the cursor of an empty list.
    pub open spec fn in_bounds(self, len: nat) -> bool {
        len > 0 ==> (self.index matches Some(i) ==> i < len)
    }

    /// The cursor after one step up in a list of `len` rows.
    pub open spec fn moved_up(self, len: nat) -> Selection {
        if len > 0 && self.position() > 0 {
            Selection { index: Some((self.position() - 1) as usize) }
        } else {
            self
        }
    }

    /// The cursor after one step down in a list of `len` rows.
    pub open spec fn moved_down(self, len: nat) -> Selection {
        if len > 0 && self.position() < len - 1 {
            Selection { index: Some((self.position() + 1) as usize) }
        } else {
            self
        }
    }

    /// The cursor after one step in the given direction.
    pub open spec fn moved(self, step: Move, len: nat) -> Selection {
        match step {
            Move::Up => self.moved_up(len),
            Move::Down => self.moved_down(len),
        }
    }

    /// The cursor after a whole sequence of steps, taken left to right.
    pub open spec fn after_moves(self, steps: Seq<Move>, len: nat) -> Selection
        decreases steps.len(),
    {
        if steps.len() == 0 {
            self
        } else {
            self.after_moves(steps.drop_last(), len).moved(steps.last(), len)
        }
    }

    /// A cursor with nothing highlighted.
    pub fn new() -> (s: Selection)
        ensures
            s.index is None,
    {
        Selection { index: None }
    }

    /// A cursor on row `index`.
    pub fn at(index: usize) -> (s: Selection)
        ensures
            s.index == Some(index),
    {
        Selection { index: Some(index) }
    }

    /// Highlights `index`, or nothing.
    pub fn select(&mut self, index: Option<usize>)
        ensures
            final(self).index == index,
    {
        self.index = index;
    }

    /// The highlighted row.
    pub fn selected(&self) -> (index: Option<usize>)
        ensures
            index == self.index,
    {
        self.index
    }

    /// Moves one row up in a list of `len` rows; reports whether the cursor moved.
    pub fn move_up(&mut self, len: usize) -> (changed: bool)
        ensures
            *final(self) == old(self).moved_up(len as nat),
            changed == (len > 0 && old(self).position() > 0),
    {
        let current: usize = match self.index {
            Some(i) => i,
            None => 0,
        };
        if len > 0 && current > 0 {
            self.index = Some(current - 1);
            true
        } else {
            false
        }
    }

    /// Moves one row down in a list of `len` rows; reports whether the cursor moved.
    pub fn move_down(&mut self, len: usize) -> (changed: bool)
        ensures
            *final(self) == old(self).moved_down(len as nat),
            changed == (len > 0 && old(self).position() < len - 1),
    {
        let current: usize = match self.index {
            Some(i) => i,
            None => 0,
        };
        if len > 0 && current < len - 1 {
            self.index = Some(current + 1);
            true
        } else {
            false
        }
    }
}

/// One step keeps the cursor inside the list, and does nothing at all in an
/// empty list.
pub proof fn lemma_move_stays_in_bounds(s: Selection, step: Move, len: nat)
    requires
        s.in_bounds(len),
    ensures
        s.moved(step, len).in_bounds(len),
        len == 0 ==> s.moved(step, len) == s,
        s.index is Some ==> s.moved(step, len).index is Some,
{
}

/// Whatever sequence of up and down steps is taken, the highlighted row stays
/// inside `0 .. len`, a highlighted row stays highlighted, and the cursor of
/// an empty list never changes.
pub proof fn lemma_moves_stay_in_bounds(s: Selection, steps: Seq<Move>, len: nat)
    requires
        s.in_bounds(len),
    ensures
        s.after_moves(steps, len).in_bounds(len),
        len == 0 ==> s.after_moves(steps, len) == s,
        s.index is Some ==> s.after_moves(steps, len).index is Some,
    decreases steps.len(),
{
    if steps.len() > 0 {
        lemma_moves_stay_in_bounds(s, steps.drop_last(), len);
        lemma_move_stays_in_bounds(s.after_moves(steps.drop_last(), len), steps.last(), len);
    }
}

} // verus!
