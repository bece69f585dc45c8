//! The text store: a rope-backed mutable text with optional file identity
//! and a dirty flag. Positions are converted to raw character offsets and
//! back through the line model of `text_model`; the two directions are
//! mutual inverses on in-bounds inputs.

use crate::position::{pos_le, Position};
use crate::rope_store::{
    rope_char_to_line, rope_from_str, rope_insert, rope_len_chars, rope_len_lines,
    rope_line_to_char, rope_new, rope_remove, rope_slice_to_string, rope_text, rope_to_string,
};
use crate::text_model::{
    char_to_line, line_end, line_len_at, line_start, line_start_clamped, num_lines,
    pos_in_bounds, pos_offset, remove_span, splice,
    lemma_char_to_line_bounds, lemma_line_end_next_start, lemma_line_start_mono,
    lemma_line_start_props, lemma_pos_bounds_common_prefix, lemma_position_offset_round_trip,
};
use vstd::prelude::*;

verus! {

/// A half-open span of raw storage offsets.
#[derive(Debug, Clone, Copy, PartialEq, Eq, Structural)]
pub struct ByteRange {
    pub start: usize,
    pub end: usize,
}

/// The identity of the file a document was loaded from or saved to.
#[derive(Debug, Clone)]
pub struct FileData {
    pub name: String,
    pub uri: String,
}

/// The text store. The dirty flag `is_saved` is true only immediately after
/// construction or an explicit `mark_saved`, and every successful mutation
/// clears it.
pub struct Document {
    pub rope: ropey::Rope,
    pub file_data: Option<FileData>,
    pub is_saved: bool,
}

impl Document {
    /// The characters this document holds.
    pub open spec fn text(&self) -> Seq<char> {
        rope_text(self.rope)
    }

    /// A fresh, empty, unnamed document.
    pub fn new() -> (r: Self)
        ensures
            r.text() == Seq::<char>::empty(),
            r.is_saved,
            r.file_data is None,
    {
        Document { rope: rope_new(), file_data: None, is_saved: true }
    }

    /// A document holding `content`, as read from storage or started empty.
    pub fn from_text(content: &str, file_data: Option<FileData>) -> (r: Self)
        ensures
            r.text() == content@,
            r.is_saved,
            r.file_data == file_data,
    {
        Document { rope: rope_from_str(content), file_data, is_saved: true }
    }

    pub fn uri(&self) -> (r: Option<&String>)
        ensures
            r is Some <==> self.file_data is Some,
            r is Some ==> *r->Some_0 == self.file_data->Some_0.uri,
    {
        match &self.file_data {
            Some(fd) => Some(&fd.uri),
            None => None,
        }
    }

    pub fn filename(&self) -> (r: Option<&String>)
        ensures
            r is Some <==> self.file_data is Some,
            r is Some ==> *r->Some_0 == self.file_data->Some_0.name,
    {
        match &self.file_data {
            Some(fd) => Some(&fd.name),
            None => None,
        }
    }

    pub fn is_saved(&self) -> (r: bool)
        ensures
            r == self.is_saved,
    {
        self.is_saved
    }

    /// Record a completed save under the given identity: clears the dirty
    /// flag, and adopts the identity when the document had none.
    pub fn mark_saved(&mut self, name: String, uri: String)
        ensures
            final(self).is_saved,
            final(self).text() == old(self).text(),
            old(self).file_data is Some ==> final(self).file_data == old(self).file_data,
            old(self).file_data is None ==> (final(self).file_data matches Some(fd)
                && fd.name == name && fd.uri == uri),
    {
        if self.file_data.is_none() {
            self.file_data = Some(FileData { name, uri });
        }
        self.is_saved = true;
    }

    /// Total number of characters held.
    pub fn len_chars(&self) -> (r: usize)
        ensures
            r == self.text().len(),
    {
        rope_len_chars(&self.rope)
    }

    /// Number of lines, the final empty line after a trailing newline
    /// included; at least 1 even when empty.
    pub fn len(&self) -> (r: usize)
        ensures
            r == num_lines(self.text()),
    {
        rope_len_lines(&self.rope)
    }

    /// Characters on line `y`, its terminating newline included. Counts
    /// Unicode scalar values — the one unit used for every length and
    /// offset here, where other conventions might count grapheme clusters.
    pub fn line_len(&self, y: usize) -> (r: usize)
        requires
            y < num_lines(self.text()),
        ensures
            r == line_len_at(self.text(), y as nat),
    {
        proof {
            lemma_line_end_next_start(self.text(), y as nat);
        }
        let lines = rope_len_lines(&self.rope);
        let a = rope_line_to_char(&self.rope, y);
        let b = rope_line_to_char(&self.rope, y + 1);
        b - a
    }

    /// The position-to-offset direction of the coordinate mapping.
    pub fn get_character_pos(&self, position: &Position) -> (r: usize)
        requires
            position.line < num_lines(self.text()),
            pos_offset(self.text(), position.line as nat, position.character as nat) <= usize::MAX,
        ensures
            r == pos_offset(self.text(), position.line as nat, position.character as nat),
    {
        let base = rope_line_to_char(&self.rope, position.line);
        base + position.character
    }

    /// The offset-to-position direction of the coordinate mapping; inverse
    /// to `get_character_pos` on in-bounds inputs.
    pub fn offset_to_position(&self, offset: usize) -> (r: Position)
        requires
            offset <= self.text().len(),
        ensures
            r.line == char_to_line(self.text(), offset as int),
            r.character == offset - line_start(self.text(), r.line as nat),
            pos_in_bounds(self.text(), r.line as nat, r.character as nat),
            pos_offset(self.text(), r.line as nat, r.character as nat) == offset,
    {
        proof {
            lemma_char_to_line_bounds(self.text(), offset as int);
        }
        let line = rope_char_to_line(&self.rope, offset);
        let start = rope_line_to_char(&self.rope, line);
        Position { line, character: offset - start }
    }

    /// Offset at which `line_number` starts, clamped to the text length for
    /// every line index past the end.
    pub fn get_line_bytes(&self, line_number: usize) -> (r: usize)
        ensures
            r == line_start_clamped(self.text(), line_number as nat),
    {
        let lines = rope_len_lines(&self.rope);
        if line_number > lines {
            return rope_len_chars(&self.rope);
        }
        rope_line_to_char(&self.rope, line_number)
    }

    /// Splice `character` in at `position`; marks the document dirty and
    /// returns the offset where the insertion began.
    pub fn insert(&mut self, position: &Position, character: String) -> (start_idx: usize)
        requires
            pos_in_bounds(old(self).text(), position.line as nat, position.character as nat),
        ensures
            start_idx == pos_offset(
                old(self).text(),
                position.line as nat,
                position.character as nat,
            ),
            final(self).text() == splice(old(self).text(), start_idx as int, character@),
            !final(self).is_saved,
            final(self).file_data == old(self).file_data,
    {
        proof {
            lemma_position_offset_round_trip(
                self.text(),
                position.line as nat,
                position.character as nat,
            );
        }
        let total = rope_len_chars(&self.rope);
        let start_idx = self.get_character_pos(position);
        rope_insert(&mut self.rope, start_idx, character.as_str());
        self.is_saved = false;
        start_idx
    }

    /// Remove the span between the two positions. A no-op returning `None`
    /// when the starting line is empty or the end offset lies past the text:
    /// callers may ask to delete past end-of-buffer. On success, returns the
    /// removed offset span and marks the document dirty.
    pub fn delete(&mut self, start_idx: &Position, end_idx: &Position) -> (r: Option<ByteRange>)
        requires
            pos_in_bounds(old(self).text(), start_idx.line as nat, start_idx.character as nat),
            end_idx.line < num_lines(old(self).text()),
            pos_offset(old(self).text(), end_idx.line as nat, end_idx.character as nat)
                <= usize::MAX,
            pos_le(*start_idx, *end_idx),
        ensures
            ({
                let s = old(self).text();
                let a = pos_offset(s, start_idx.line as nat, start_idx.character as nat);
                let b = pos_offset(s, end_idx.line as nat, end_idx.character as nat);
                if line_len_at(s, start_idx.line as nat) != 0 && b <= s.len() {
                    &&& r matches Some(br) && br.start == a && br.end == b
                    &&& final(self).text() == remove_span(s, a, b)
                    &&& !final(self).is_saved
                } else {
                    &&& r is None
                    &&& final(self).text() == s
                    &&& final(self).is_saved == old(self).is_saved
                }
            }),
            final(self).file_data == old(self).file_data,
    {
        proof {
            lemma_position_offset_round_trip(
                self.text(),
                start_idx.line as nat,
                start_idx.character as nat,
            );
            if start_idx.line < end_idx.line {
                lemma_line_start_mono(
                    self.text(),
                    (start_idx.line + 1) as nat,
                    end_idx.line as nat,
                );
            }
        }
        let line_chars = self.line_len(start_idx.line);
        let total = rope_len_chars(&self.rope);
        let start = self.get_character_pos(start_idx);
        let end = self.get_character_pos(end_idx);
        if line_chars != 0 && end <= total {
            rope_remove(&mut self.rope, start, end);
            self.is_saved = false;
            return Some(ByteRange { start, end });
        }
        None
    }

    /// Delete the span, then insert `character` at the start position; the
    /// insertion happens whether or not the delete applied. Returns the
    /// deleted offset span, not the inserted one.
    pub fn replace(&mut self, start_idx: &Position, end_idx: &Position, character: String) -> (r:
        Option<ByteRange>)
        requires
            pos_in_bounds(old(self).text(), start_idx.line as nat, start_idx.character as nat),
            end_idx.line < num_lines(old(self).text()),
            pos_offset(old(self).text(), end_idx.line as nat, end_idx.character as nat)
                <= usize::MAX,
            pos_le(*start_idx, *end_idx),
        ensures
            ({
                let s = old(self).text();
                let a = pos_offset(s, start_idx.line as nat, start_idx.character as nat);
                let b = pos_offset(s, end_idx.line as nat, end_idx.character as nat);
                if line_len_at(s, start_idx.line as nat) != 0 && b <= s.len() {
                    &&& r matches Some(br) && br.start == a && br.end == b
                    &&& final(self).text() == splice(remove_span(s, a, b), a as int, character@)
                } else {
                    &&& r is None
                    &&& final(self).text() == splice(s, a as int, character@)
                }
            }),
            !final(self).is_saved,
            final(self).file_data == old(self).file_data,
    {
        let ghost s = self.text();
        let ghost a = pos_offset(s, start_idx.line as nat, start_idx.character as nat);
        let result = self.delete(start_idx, end_idx);
        proof {
            lemma_position_offset_round_trip(s, start_idx.line as nat, start_idx.character as nat);
            assert(self.text().subrange(0, a) =~= s.subrange(0, a));
            lemma_pos_bounds_common_prefix(
                s,
                self.text(),
                start_idx.line as nat,
                start_idx.character as nat,
            );
        }
        self.insert(start_idx, character);
        result
    }

    /// The full text as a string.
    pub fn to_string(&self) -> (r: String)
        ensures
            r@ == self.text(),
    {
        rope_to_string(&self.rope)
    }

    /// The characters in the offset span `[start, end)`.
    pub fn str_from_range(&self, start: usize, end: usize) -> (r: String)
        requires
            start <= end,
            end <= self.text().len(),
        ensures
            r@ == self.text().subrange(start as int, end as int),
    {
        rope_slice_to_string(&self.rope, start, end)
    }

    /// Line `line_idx` as a string, its terminating newline included, or
    /// `None` past the last line.
    pub fn get_line(&self, line_idx: usize) -> (r: Option<String>)
        ensures
            r is Some <==> line_idx < num_lines(self.text()),
            r matches Some(s) ==> s@ == self.text().subrange(
                line_start(self.text(), line_idx as nat),
                line_end(self.text(), line_idx as nat),
            ),
    {
        let lines = rope_len_lines(&self.rope);
        if line_idx >= lines {
            return None;
        }
        proof {
            lemma_line_start_props(self.text(), line_idx as nat);
            lemma_line_end_next_start(self.text(), line_idx as nat);
        }
        let a = rope_line_to_char(&self.rope, line_idx);
        let b = rope_line_to_char(&self.rope, line_idx + 1);
        Some(rope_slice_to_string(&self.rope, a, b))
    }

    /// The last line; always present, since a document has at least one line.
    pub fn last_line(&self) -> (r: Option<String>)
        ensures
            r is Some,
            r matches Some(s) ==> s@ == self.text().subrange(
                line_start(self.text(), (num_lines(self.text()) - 1) as nat),
                line_end(self.text(), (num_lines(self.text()) - 1) as nat),
            ),
    {
        let lines = rope_len_lines(&self.rope);
        self.get_line(lines - 1)
    }
}

} // verus!
