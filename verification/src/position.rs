//! The coordinate model: a `Position` is a (line, character) pair ordered
//! first by line and then by character, and a `Cursor` is a single position
//! with saturating movement primitives.

use crate::text_model::{count_nl, last_line_start};
use vstd::prelude::*;
use vstd::string::StrSliceExecFns;

verus! {

/// Messages that a surrounding application builds from cursor events; the
/// library never implements this itself.
pub trait CursorMessage: Sized {
    fn from_cursor_position(pos: Position) -> Self;

    fn from_selection_move(pos: Position) -> Self;
}

#[derive(Debug, Clone, Copy, PartialEq, Eq, Structural)]
pub struct Position {
    pub line: usize,
    pub character: usize,
}

/// `p` addresses a character of `s` or the one slot past a line's end.
pub open spec fn pos_ok(s: Seq<char>, p: Position) -> bool {
    crate::text_model::pos_in_bounds(s, p.line as nat, p.character as nat)
}

/// The raw character offset of `p` in `s`.
pub open spec fn offset_of(s: Seq<char>, p: Position) -> int {
    crate::text_model::pos_offset(s, p.line as nat, p.character as nat)
}

/// The position one slot past text `content` inserted at `p`: the line
/// advances by the newlines of `content`, and the character becomes the
/// length of `content` after its last newline (added to `p`'s character
/// when `content` holds no newline).
pub open spec fn spec_advanced_cursor(p: Position, content: Seq<char>) -> Position {
    Position {
        line: (p.line + count_nl(content)) as usize,
        character: if count_nl(content) == 0 {
            (p.character + (content.len() - last_line_start(content))) as usize
        } else {
            (content.len() - last_line_start(content)) as usize
        },
    }
}

/// Total order on positions: by line, then by character.
pub open spec fn pos_le(a: Position, b: Position) -> bool {
    a.line < b.line || (a.line == b.line && a.character <= b.character)
}

/// Strict order on positions: by line, then by character.
pub open spec fn pos_lt(a: Position, b: Position) -> bool {
    a.line < b.line || (a.line == b.line && a.character < b.character)
}

impl PartialOrd for Position {
    fn partial_cmp(&self, other: &Self) -> (r: Option<core::cmp::Ordering>) {
        if self.line < other.line {
            Some(core::cmp::Ordering::Less)
        } else if self.line > other.line {
            Some(core::cmp::Ordering::Greater)
        } else if self.character < other.character {
            Some(core::cmp::Ordering::Less)
        } else if self.character > other.character {
            Some(core::cmp::Ordering::Greater)
        } else {
            Some(core::cmp::Ordering::Equal)
        }
    }
}

impl vstd::std_specs::cmp::PartialOrdSpecImpl for Position {
    open spec fn obeys_partial_cmp_spec() -> bool {
        true
    }

    open spec fn partial_cmp_spec(&self, other: &Self) -> Option<core::cmp::Ordering> {
        if pos_lt(*self, *other) {
            Some(core::cmp::Ordering::Less)
        } else if *self == *other {
            Some(core::cmp::Ordering::Equal)
        } else {
            Some(core::cmp::Ordering::Greater)
        }
    }
}

impl Default for Position {
    fn default() -> (r: Self)
        ensures
            r.line == 0,
            r.character == 0,
    {
        Position { line: 0, character: 0 }
    }
}

impl Position {
    pub fn new(line: usize, character: usize) -> (r: Self)
        ensures
            r.line == line,
            r.character == character,
    {
        Self { line, character }
    }

    pub fn line(&self) -> (r: usize)
        ensures
            r == self.line,
    {
        self.line
    }

    pub fn character(&self) -> (r: usize)
        ensures
            r == self.character,
    {
        self.character
    }

    pub fn set_line(&mut self, line: usize)
        ensures
            final(self).line == line,
            final(self).character == old(self).character,
    {
        self.line = line
    }

    pub fn set_character(&mut self, character: usize)
        ensures
            final(self).line == old(self).line,
            final(self).character == character,
    {
        self.character = character
    }

    /// Half-open range test: at or past `start_point` and before `end_point`.
    pub fn is_within(&self, start_point: Position, end_point: Position) -> (r: bool)
        ensures
            r == (pos_le(start_point, *self) && pos_lt(*self, end_point)),
    {
        *self >= start_point && *self < end_point
    }

    /// The position delta of just-inserted text: its line is the number of
    /// newlines in the text, its character the length of the text after the
    /// last newline.
    pub fn end_of_insert(content: String) -> (r: Self)
        ensures
            r.line == count_nl(content@),
            r.character == content@.len() - last_line_start(content@),
    {
        let s = content.as_str();
        let n = s.unicode_len();
        let mut i: usize = 0;
        let mut nl: usize = 0;
        let mut start: usize = 0;
        while i < n
            invariant
                i <= n,
                n == s@.len(),
                s@ == content@,
                nl == count_nl(s@.subrange(0, i as int)),
                nl <= i,
                start == last_line_start(s@.subrange(0, i as int)),
                start <= i,
            decreases n - i,
        {
            let c = s.get_char(i);
            proof {
                assert(s@.subrange(0, i + 1 as int).drop_last() =~= s@.subrange(0, i as int));
                assert(s@.subrange(0, i + 1 as int).last() == s@[i as int]);
            }
            if c == '\n' {
                nl = nl + 1;
                start = i + 1;
            }
            i = i + 1;
        }
        proof {
            assert(s@.subrange(0, n as int) =~= s@);
        }
        Position { line: nl, character: n - start }
    }

    /// Advance by a delta: lines add; the character adds on the same line and
    /// is replaced when the delta crosses onto a new line.
    pub fn add(&mut self, position: Self)
        requires
            old(self).line + position.line <= usize::MAX,
            position.line == 0 ==> old(self).character + position.character <= usize::MAX,
        ensures
            final(self).line == old(self).line + position.line,
            final(self).character == if position.line == 0 {
                old(self).character + position.character
            } else {
                position.character as int
            },
    {
        let line = self.line + position.line;
        let character = if position.line == 0 {
            self.character + position.character
        } else {
            position.character
        };
        *self = Position::new(line, character)
    }
}

#[derive(Debug, Clone, Copy)]
pub struct Cursor(pub Position);

impl Default for Cursor {
    fn default() -> (r: Self)
        ensures
            r.0.line == 0,
            r.0.character == 0,
    {
        Cursor(Position { line: 0, character: 0 })
    }
}

impl Cursor {
    /// Move right (positive) or left (negative), saturating at the bounds of
    /// `usize`.
    pub fn move_horizontally(&mut self, distance: isize)
        ensures
            final(self).0.line == old(self).0.line,
            final(self).0.character == if old(self).0.character + distance > usize::MAX {
                usize::MAX as int
            } else if old(self).0.character + distance < 0 {
                0int
            } else {
                old(self).0.character + distance
            },
    {
        if distance > 0 {
            self.0.character = self.0.character.saturating_add(distance as usize);
        } else {
            self.0.character = self.0.character.saturating_sub(magnitude_of_negative(distance));
        }
    }

    /// Move down (positive) or up (negative), saturating at the bounds of
    /// `usize`.
    pub fn move_vertically(&mut self, distance: isize)
        ensures
            final(self).0.character == old(self).0.character,
            final(self).0.line == if old(self).0.line + distance > usize::MAX {
                usize::MAX as int
            } else if old(self).0.line + distance < 0 {
                0int
            } else {
                old(self).0.line + distance
            },
    {
        if distance > 0 {
            self.0.line = self.0.line.saturating_add(distance as usize);
        } else {
            self.0.line = self.0.line.saturating_sub(magnitude_of_negative(distance));
        }
    }

    /// Advance the cursor by the end-of-insertion delta of `insert`.
    pub fn move_to_end_of_insert(&mut self, insert: String)
        requires
            old(self).0.line + count_nl(insert@) <= usize::MAX,
            count_nl(insert@) == 0 ==> old(self).0.character + insert@.len() <= usize::MAX,
        ensures
            final(self).0.line == old(self).0.line + count_nl(insert@),
            final(self).0.character == if count_nl(insert@) == 0 {
                old(self).0.character + (insert@.len() - last_line_start(insert@))
            } else {
                insert@.len() - last_line_start(insert@)
            },
    {
        proof {
            crate::text_model::lemma_last_line_start_bounds(insert@);
        }
        let insertion_position = Position::end_of_insert(insert);
        self.0.add(insertion_position);
    }
}

/// The absolute value of a non-positive `isize`, as a `usize`.
fn magnitude_of_negative(distance: isize) -> (r: usize)
    requires
        distance <= 0,
    ensures
        r == -(distance as int),
{
    if distance == isize::MIN {
        (isize::MAX as usize) + 1
    } else {
        (-distance) as usize
    }
}

} // verus!
