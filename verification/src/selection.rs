//! Selections and ranges: an ordered pair of positions. A `Selection` is not
//! automatically normalized (the user may drag backward); `correct_position`
//! returns the normalized copy, and membership is half-open.

use crate::position::{pos_le, pos_lt, Cursor, Position};
use vstd::prelude::*;

verus! {

/// A selection within the document. Most uses should normalize through
/// `correct_position` first, since `start` may lie past `end`.
#[derive(Debug, Clone, Copy)]
pub struct Selection(pub Range);

/// `p` lies within `s`: at or past its start and before its end.
pub open spec fn sel_contains(s: Selection, p: Position) -> bool {
    pos_le(s.0.start, p) && pos_lt(p, s.0.end)
}

impl Default for Selection {
    fn default() -> (r: Self)
        ensures
            r.0.start == (Position { line: 0, character: 0 }),
            r.0.end == (Position { line: 0, character: 0 }),
    {
        Selection(Range { start: Position { line: 0, character: 0 }, end: Position { line: 0, character: 0 } })
    }
}

impl Selection {
    /// The copy of this selection with `start` and `end` in order.
    pub open spec fn spec_corrected(self) -> Selection {
        if pos_le(self.0.start, self.0.end) {
            self
        } else {
            Selection(Range { start: self.0.end, end: self.0.start })
        }
    }

    pub fn start(&self) -> (r: &Position)
        ensures
            *r == self.0.start,
    {
        &self.0.start
    }

    pub fn end(&self) -> (r: &Position)
        ensures
            *r == self.0.end,
    {
        &self.0.end
    }

    /// True when the selection selects nothing: both endpoints coincide.
    pub fn is_empty(&self) -> (r: bool)
        ensures
            r == (self.0.start == self.0.end),
    {
        self.0.start == self.0.end
    }

    pub fn set_start(&mut self, pos: Position)
        ensures
            final(self).0.start == pos,
            final(self).0.end == old(self).0.end,
    {
        self.0 = Range::new(pos, self.0.end());
    }

    pub fn set_end(&mut self, pos: Position)
        ensures
            final(self).0.start == old(self).0.start,
            final(self).0.end == pos,
    {
        self.0 = Range::new(self.0.start(), pos);
    }

    /// Half-open membership test against the raw (possibly inverted) bounds.
    pub fn is_within(&self, pos: &Position) -> (r: bool)
        ensures
            r == sel_contains(*self, *pos),
    {
        *pos >= self.0.start && *pos < self.0.end
    }

    /// Returns a normalized copy: if `start` lies past `end`, the two are
    /// swapped. Never mutates in place.
    pub fn correct_position(&self) -> (r: Self)
        ensures
            r == self.spec_corrected(),
    {
        let mut new_selection = *self;
        if new_selection.0.start > new_selection.0.end {
            core::mem::swap(&mut new_selection.0.start, &mut new_selection.0.end)
        }
        new_selection
    }

    /// Collapse the selection onto its smaller endpoint and move the cursor
    /// there.
    pub fn clear(&mut self, cursor: &mut Cursor)
        ensures
            final(self).0.start == old(self).spec_corrected().0.start,
            final(self).0.end == old(self).spec_corrected().0.start,
            final(cursor).0 == old(self).spec_corrected().0.start,
    {
        let position = if self.0.start <= self.0.end {
            self.0.start
        } else {
            self.0.end
        };
        self.0.start = position;
        self.0.end = position;
        cursor.0 = position;
    }
}

/// An ordered pair of positions with `start` at or before `end` by
/// convention; constructed normalized by the callers that rely on it.
#[derive(Debug, Clone, Copy)]
pub struct Range {
    pub start: Position,
    pub end: Position,
}

impl Default for Range {
    fn default() -> (r: Self)
        ensures
            r.start == (Position { line: 0, character: 0 }),
            r.end == (Position { line: 0, character: 0 }),
    {
        Range { start: Position { line: 0, character: 0 }, end: Position { line: 0, character: 0 } }
    }
}

impl Range {
    pub fn new(start: Position, end: Position) -> (r: Self)
        ensures
            r.start == start,
            r.end == end,
    {
        Self { start, end }
    }

    /// Half-open membership test.
    pub fn pos_in_range(&self, pos: Position) -> (r: bool)
        ensures
            r == (pos_le(self.start, pos) && pos_lt(pos, self.end)),
    {
        pos >= self.start && pos < self.end
    }

    pub fn start(&self) -> (r: Position)
        ensures
            r == self.start,
    {
        self.start
    }

    pub fn end(&self) -> (r: Position)
        ensures
            r == self.end,
    {
        self.end
    }
}

/// Law: a corrected selection is ordered, contains its own start whenever it
/// is non-empty, and never contains its own end.
pub proof fn lemma_corrected_selection(s: Selection)
    ensures
        pos_le(s.spec_corrected().0.start, s.spec_corrected().0.end),
        s.0.start != s.0.end ==> sel_contains(s.spec_corrected(), s.spec_corrected().0.start),
        !sel_contains(s.spec_corrected(), s.spec_corrected().0.end),
{
}

} // verus!
