//! The composition root: one `Buffer` exclusively owns the text store, the
//! cursor, the selection, the viewport and the highlight index, and keeps
//! them consistent across every editing operation.

use crate::diagnostics::{first_issue_at, ClientDiagnostics, Issue};
use crate::document::{ByteRange, Document};
use crate::document_change::DocumentChange;
use crate::highlight::{
    accurate_edit, caps_view, captures_of, parser_ready, query_source, spec_delete_descriptor,
    spec_insert_descriptor, tree_text, Highlighter, HighlighterConfig,
};
use crate::position::{offset_of, pos_le, pos_ok, spec_advanced_cursor, Cursor, Position};
use crate::selection::{sel_contains, Range, Selection};
use crate::text_model::{
    count_nl, line_len_at, line_start_clamped, num_lines, pos_in_bounds,
    remove_span, splice,
    lemma_count_nl_le_len, lemma_find_nl_props, lemma_line_end_next_start,
    lemma_line_start_mono, lemma_line_start_props, lemma_position_offset_round_trip,
};
use crate::window::{spec_move_x, spec_move_y, MoveDirectionX, MoveDirectionY, VirtualWindow};
use vstd::prelude::*;
use vstd::string::StrSliceExecFns;
use vstd::utf8::is_ascii_chars;

verus! {

/// Rendering facts the widget layer measures: the longest line length and
/// the pixel width of one glyph.
pub struct TextInfo {
    pub longest_line: usize,
    pub text_width: usize,
}

/// Where the cursor-correction pass puts a position: the line clamped to the
/// last line, the character clamped to the line's length — its last
/// character ordinarily, one past it on the last line — and to 0 on an
/// empty line.
pub open spec fn spec_corrected_cursor(s: Seq<char>, p: Position) -> Position {
    let l = if p.line > num_lines(s) - 1 {
        (num_lines(s) - 1) as usize
    } else {
        p.line
    };
    let ll = line_len_at(s, l as nat);
    let ch = if ll != 0 {
        let m = if l == num_lines(s) - 1 {
            ll
        } else {
            ll - 1
        };
        if p.character > m {
            m as usize
        } else {
            p.character
        }
    } else {
        0usize
    };
    Position { line: l, character: ch }
}

/// `x + d`, saturated to the bounds of `usize`.
pub open spec fn spec_sat_add(x: usize, d: int) -> usize {
    if x + d > usize::MAX {
        usize::MAX
    } else if x + d < 0 {
        0usize
    } else {
        (x + d) as usize
    }
}

/// The window and cursor after a vertical move: the window scrolls one step
/// when the cursor sits within two lines of the edge being moved toward,
/// and the moved cursor is clamped onto valid bounds.
pub open spec fn spec_after_move_vertically(
    s: Seq<char>,
    w: VirtualWindow,
    cur: Position,
    distance: int,
) -> (VirtualWindow, Position) {
    let w2 = if cur.line + 2 >= w.spec_end_line() && distance > 0 {
        spec_move_y(w, false, num_lines(s) as usize)
    } else if cur.line <= w.spec_start_line() + 2 && distance < 0 {
        spec_move_y(w, true, num_lines(s) as usize)
    } else {
        w
    };
    let c2 = spec_corrected_cursor(
        s,
        Position { line: spec_sat_add(cur.line, distance), character: cur.character },
    );
    (w2, c2)
}

/// The window and cursor after a horizontal move: the moved cursor is
/// clamped first, and the window scrolls one step when the clamped cursor
/// sits within five columns of the edge being moved toward.
pub open spec fn spec_after_move_horizontally(
    s: Seq<char>,
    w: VirtualWindow,
    cur: Position,
    distance: int,
    longest_line: usize,
    text_width: usize,
) -> (VirtualWindow, Position) {
    let c2 = spec_corrected_cursor(
        s,
        Position { line: cur.line, character: spec_sat_add(cur.character, distance) },
    );
    let w2 = if c2.character + 5 >= w.spec_end_character(text_width) && distance > 0 {
        spec_move_x(w, false, longest_line, text_width)
    } else if c2.character <= w.spec_start_character(text_width) + 5 && distance < 0 {
        spec_move_x(w, true, longest_line, text_width)
    } else {
        w
    };
    (w2, c2)
}

pub struct Buffer {
    pub document: Document,
    pub highlighter: HighlighterConfig,
    pub selection: Selection,
    pub cursor: Cursor,
    pub window: VirtualWindow,
    pub diagnostics: Option<ClientDiagnostics>,
}

impl Buffer {
    /// The characters the buffer holds.
    pub open spec fn text(&self) -> Seq<char> {
        self.document.text()
    }

    /// The highlight index represents the buffer's current text.
    pub open spec fn hl_synced(&self) -> bool {
        tree_text(self.highlighter.tree) == self.text()
    }

    /// A buffer over a document and a highlight index, with the given line
    /// height in pixels.
    pub fn new(buffer: Document, tree: HighlighterConfig, lineheight: usize) -> (r: Self)
        ensures
            r.document == buffer,
            r.highlighter == tree,
            r.cursor.0 == (Position { line: 0, character: 0 }),
            r.selection.0.start == (Position { line: 0, character: 0 }),
            r.selection.0.end == (Position { line: 0, character: 0 }),
            r.window == (VirtualWindow {
                width: 0,
                offset_x: 0,
                offset_y: 0,
                height: 4000,
                lineheight,
            }),
            r.diagnostics is None,
    {
        Self {
            document: buffer,
            highlighter: tree,
            cursor: Cursor::default(),
            window: VirtualWindow::new().set_lineheight(lineheight),
            selection: Selection::default(),
            diagnostics: None,
        }
    }

    /// The first stored issue at `pos`, if a diagnostics snapshot is held.
    pub fn diagnostic_are_in_position(&self, pos: Position) -> (r: Option<Issue>)
        ensures
            r == match self.diagnostics {
                Some(d) => first_issue_at(d.issues@, pos),
                None => None::<Issue>,
            },
    {
        if let Some(diagnostic) = &self.diagnostics {
            return diagnostic.diagnostic_in_position(pos);
        }
        None
    }

    /// Adopt a diagnostics snapshot when it is for this buffer's document:
    /// an atomic replacement of any prior snapshot.
    pub fn add_diagnostics(&mut self, diagnostic: ClientDiagnostics)
        ensures
            final(self).document == old(self).document,
            final(self).highlighter == old(self).highlighter,
            final(self).selection == old(self).selection,
            final(self).cursor == old(self).cursor,
            final(self).window == old(self).window,
            final(self).diagnostics == if old(self).document.file_data matches Some(fd)
                && fd.uri@ == diagnostic.uri@ {
                Some(diagnostic)
            } else {
                old(self).diagnostics
            },
    {
        let matches_uri = match self.document.uri() {
            Some(uri) => uri.eq(&diagnostic.uri),
            None => false,
        };
        if matches_uri {
            self.diagnostics = Some(diagnostic)
        }
    }

    /// The first stored issue at `pos`, or at the cursor when no position is
    /// given.
    pub fn find_diagnostic(&self, pos: Option<Position>) -> (r: Option<Issue>)
        ensures
            r == match self.diagnostics {
                Some(d) => first_issue_at(
                    d.issues@,
                    match pos {
                        Some(p) => p,
                        None => self.cursor.0,
                    },
                ),
                None => None::<Issue>,
            },
    {
        let p = match pos {
            Some(p) => p,
            None => self.cursor.0,
        };
        if let Some(diagnostics) = &self.diagnostics {
            return diagnostics.diagnostic_in_position(p);
        }
        None
    }

    pub fn filename(&self) -> (r: Option<&String>)
        ensures
            r is Some <==> self.document.file_data is Some,
            r is Some ==> *r->Some_0 == self.document.file_data->Some_0.name,
    {
        self.document.filename()
    }

    pub fn buffer(&self) -> (r: &Document)
        ensures
            *r == self.document,
    {
        &self.document
    }

    pub fn set_window(&mut self, window: VirtualWindow)
        ensures
            *final(self) == (Buffer { window, ..*old(self) }),
    {
        self.window = window;
    }

    /// Record a completed save under the given identity: clears the dirty
    /// flag, and adopts the identity when the document had none.
    pub fn mark_saved(&mut self, name: String, uri: String)
        ensures
            final(self).document.is_saved,
            final(self).text() == old(self).text(),
            old(self).document.file_data is Some ==> final(self).document.file_data == old(self).document.file_data,
            old(self).document.file_data is None ==> (final(self).document.file_data matches Some(
                fd,
            ) && fd.name == name && fd.uri == uri),
            final(self).highlighter == old(self).highlighter,
            final(self).selection == old(self).selection,
            final(self).cursor == old(self).cursor,
            final(self).window == old(self).window,
            final(self).diagnostics == old(self).diagnostics,
    {
        self.document.mark_saved(name, uri);
    }

    /// Number of lines in the document.
    pub fn len(&self) -> (r: usize)
        ensures
            r == num_lines(self.text()),
    {
        self.document.len()
    }

    pub fn is_saved(&self) -> (r: bool)
        ensures
            r == self.document.is_saved,
    {
        self.document.is_saved()
    }

    /// Characters on `line`, its terminating newline included.
    pub fn line_len(&self, line: usize) -> (r: usize)
        requires
            line < num_lines(self.text()),
        ensures
            r == line_len_at(self.text(), line as nat),
    {
        self.document.line_len(line)
    }

    pub fn set_cursor(&mut self, cursor: Cursor)
        ensures
            *final(self) == (Buffer { cursor, ..*old(self) }),
    {
        self.cursor = cursor
    }

    pub fn get_position(&self) -> (r: Position)
        ensures
            r == self.cursor.0,
    {
        self.cursor.0
    }

    /// The full text as a string.
    pub fn get_string(&self) -> (r: String)
        ensures
            r@ == self.text(),
    {
        self.document.to_string()
    }

    /// Characters on the cursor's line.
    pub fn get_cursor_row_len(&self) -> (r: usize)
        requires
            self.cursor.0.line < num_lines(self.text()),
        ensures
            r == line_len_at(self.text(), self.cursor.0.line as nat),
    {
        self.line_len(self.cursor.0.line)
    }

    pub fn is_within_selection(&self, pos: &Position) -> (r: bool)
        ensures
            r == sel_contains(self.selection, *pos),
    {
        self.selection.is_within(pos)
    }

    /// Clamp the cursor onto valid (line, character) bounds; afterwards the
    /// cursor addresses a position inside the document.
    pub fn correct_position(&mut self)
        ensures
            final(self).cursor.0 == spec_corrected_cursor(old(self).text(), old(self).cursor.0),
            pos_ok(final(self).text(), final(self).cursor.0),
            final(self).document == old(self).document,
            final(self).highlighter == old(self).highlighter,
            final(self).selection == old(self).selection,
            final(self).window == old(self).window,
            final(self).diagnostics == old(self).diagnostics,
    {
        let len = self.len();
        if len != 0 && self.cursor.0.line() > len - 1 {
            self.cursor.0.set_line(len - 1);
        }
        let line = self.cursor.0.line();
        proof {
            lemma_line_start_props(self.text(), line as nat);
            lemma_find_nl_props(self.text(), crate::text_model::line_start(self.text(), line as nat));
            lemma_line_end_next_start(self.text(), line as nat);
            if (line + 1) as nat <= count_nl(self.text()) {
                lemma_line_start_props(self.text(), (line + 1) as nat);
            }
        }
        if self.line_len(line) != 0 {
            let line_length = if len - 1 == line {
                self.line_len(line)
            } else {
                self.line_len(line) - 1
            };
            if self.cursor.0.character() > line_length {
                self.cursor.0.set_character(line_length);
            }
        } else {
            self.cursor.0.set_character(0);
        }
    }

    /// Tell the highlight index about a removed span, against the current
    /// text.
    fn character_deleted(
        &mut self,
        start_byte: usize,
        end_byte: usize,
        start_pos: Position,
        end_pos: Position,
    )
        ensures
            final(self).document == old(self).document,
            final(self).selection == old(self).selection,
            final(self).cursor == old(self).cursor,
            final(self).window == old(self).window,
            final(self).diagnostics == old(self).diagnostics,
            query_source(final(self).highlighter.query) == query_source(
                old(self).highlighter.query,
            ),
            parser_ready(final(self).highlighter.parser) == parser_ready(
                old(self).highlighter.parser,
            ),
            (parser_ready(old(self).highlighter.parser) && accurate_edit(
                tree_text(old(self).highlighter.tree),
                old(self).text(),
                spec_delete_descriptor(start_byte, end_byte, start_pos, end_pos),
            )) ==> tree_text(final(self).highlighter.tree) == old(self).text(),
    {
        let content = self.document.to_string();
        let _ = self.highlighter.delete(start_byte, end_byte, start_pos, end_pos, content.as_str());
    }

    /// Tell the highlight index about an inserted span, against the current
    /// text.
    fn character_inputed(
        &mut self,
        start_byte: usize,
        end_byte: usize,
        start_pos: Position,
        end_pos: Position,
        inserted: &str,
    )
        requires
            start_byte + inserted@.len() <= usize::MAX,
            start_pos.line + count_nl(inserted@) <= usize::MAX,
            count_nl(inserted@) == 0 ==> start_pos.character + inserted@.len() <= usize::MAX,
        ensures
            final(self).document == old(self).document,
            final(self).selection == old(self).selection,
            final(self).cursor == old(self).cursor,
            final(self).window == old(self).window,
            final(self).diagnostics == old(self).diagnostics,
            query_source(final(self).highlighter.query) == query_source(
                old(self).highlighter.query,
            ),
            parser_ready(final(self).highlighter.parser) == parser_ready(
                old(self).highlighter.parser,
            ),
            (parser_ready(old(self).highlighter.parser) && accurate_edit(
                tree_text(old(self).highlighter.tree),
                old(self).text(),
                spec_insert_descriptor(start_byte, end_byte, start_pos, end_pos, inserted@),
            )) ==> tree_text(final(self).highlighter.tree) == old(self).text(),
    {
        let content = self.document.to_string();
        let _ = self.highlighter.insert(
            start_byte,
            end_byte,
            start_pos,
            end_pos,
            inserted,
            content.as_str(),
        );
    }

    /// Insert `content`: replace a non-empty selection with it and collapse
    /// the selection, or splice it in at the cursor; either way the cursor
    /// advances by the end-of-insertion delta, the highlight index is fed
    /// the edit, and a change record is returned for a named document. An
    /// index that was in sync stays in sync.
    pub fn insert(&mut self, content: String) -> (r: Option<DocumentChange>)
        requires
            pos_ok(old(self).text(), old(self).selection.0.start),
            pos_ok(old(self).text(), old(self).selection.0.end),
            pos_ok(old(self).text(), old(self).cursor.0),
            old(self).text().len() + content@.len() < usize::MAX,
        ensures
            final(self).window == old(self).window,
            final(self).diagnostics == old(self).diagnostics,
            query_source(final(self).highlighter.query) == query_source(
                old(self).highlighter.query,
            ),
            parser_ready(final(self).highlighter.parser) == parser_ready(
                old(self).highlighter.parser,
            ),
            !final(self).document.is_saved,
            final(self).document.file_data == old(self).document.file_data,
            (old(self).hl_synced() && parser_ready(old(self).highlighter.parser)
                && is_ascii_chars(old(self).text()) && is_ascii_chars(content@)) ==> final(self).hl_synced(),
            ({
                let s = old(self).text();
                let sel = old(self).selection;
                if sel.0.start != sel.0.end {
                    let c = sel.spec_corrected();
                    let a = offset_of(s, c.0.start);
                    let b = offset_of(s, c.0.end);
                    &&& final(self).selection.0.start == c.0.start
                    &&& final(self).selection.0.end == c.0.start
                    &&& final(self).text() == splice(remove_span(s, a, b), a, content@)
                    &&& final(self).cursor.0 == spec_advanced_cursor(c.0.start, content@)
                    &&& (r is Some <==> old(self).document.file_data is Some)
                    &&& (r matches Some(ch) ==> ch.range == (Range {
                        start: c.0.start,
                        end: c.0.end,
                    }) && ch.byte_range == (ByteRange { start: a as usize, end: b as usize })
                        && ch.text == content && ch.file == old(self).document.file_data->Some_0.name)
                } else {
                    let p = old(self).cursor.0;
                    let a = offset_of(s, p);
                    &&& final(self).selection == old(self).selection
                    &&& final(self).text() == splice(s, a, content@)
                    &&& final(self).cursor.0 == spec_advanced_cursor(p, content@)
                    &&& (r is Some <==> old(self).document.file_data is Some)
                    &&& (r matches Some(ch) ==> ch.range == (Range { start: p, end: p })
                        && ch.byte_range == (ByteRange { start: a as usize, end: a as usize })
                        && ch.text == content && ch.file == old(self).document.file_data->Some_0.name)
                }
            }),
    {
        let ghost s = self.text();
        proof {
            lemma_count_nl_le_len(content@);
            lemma_count_nl_le_len(s);
            crate::text_model::lemma_last_line_start_bounds(content@);
            lemma_insert_prereqs(s, self.selection, self.cursor.0);
        }
        let cursor_pos = self.get_position();
        if !self.selection.is_empty() {
            proof {
                lemma_nonempty_selection_spans(s, self.selection);
                if is_ascii_chars(s) && is_ascii_chars(content@) {
                    let c = self.selection.spec_corrected();
                    crate::highlight::lemma_replace_descriptor_accurate(
                        s,
                        offset_of(s, c.0.start) as usize,
                        offset_of(s, c.0.end) as usize,
                        c.0.start,
                        c.0.end,
                        content@,
                    );
                }
            }
            let selection = self.selection.correct_position();
            self.selection.clear(&mut self.cursor);
            let bytes = self.document.replace(selection.start(), selection.end(), content.clone());
            if let Some(bytes) = bytes {
                self.character_inputed(
                    bytes.start,
                    bytes.end,
                    *selection.start(),
                    *selection.end(),
                    content.as_str(),
                );
                self.cursor.move_to_end_of_insert(content.clone());
                if self.document.filename().is_some() {
                    let filename = match self.document.filename() {
                        Some(name) => name.clone(),
                        None => String::new(),
                    };
                    return Some(
                        DocumentChange::new(
                            Range::new(*selection.start(), *selection.end()),
                            bytes,
                            content,
                            filename,
                        ),
                    );
                }
                return None;
            }
            proof {
                assert(false);
            }
            None
        } else {
            proof {
                let p = self.cursor.0;
                lemma_position_offset_round_trip(s, p.line as nat, p.character as nat);
                let a = offset_of(s, p) as usize;
                assert(a as int == offset_of(s, p));
                assert(remove_span(s, a as int, a as int) =~= s);
                if is_ascii_chars(s) && is_ascii_chars(content@) {
                    crate::highlight::lemma_replace_descriptor_accurate(s, a, a, p, p, content@);
                }
            }
            let start = self.document.insert(&self.cursor.0, content.clone());
            self.character_inputed(start, start, cursor_pos, cursor_pos, content.as_str());
            self.cursor.move_to_end_of_insert(content.clone());
            if self.document.filename().is_some() {
                let filename = match self.document.filename() {
                    Some(name) => name.clone(),
                    None => String::new(),
                };
                return Some(
                    DocumentChange::new(
                        Range::new(cursor_pos, cursor_pos),
                        ByteRange { start, end: start },
                        content,
                        filename,
                    ),
                );
            }
            None
        }
    }

    /// Delete the selected span and collapse the selection, or, with no
    /// active selection, exactly one character to the right of the cursor.
    /// The highlight index is fed the edit; an index that was in sync stays
    /// in sync.
    pub fn delete(&mut self)
        requires
            pos_ok(old(self).text(), old(self).selection.0.start),
            pos_ok(old(self).text(), old(self).selection.0.end),
            pos_ok(old(self).text(), old(self).cursor.0),
            old(self).text().len() < usize::MAX,
        ensures
            final(self).window == old(self).window,
            final(self).diagnostics == old(self).diagnostics,
            final(self).document.file_data == old(self).document.file_data,
            query_source(final(self).highlighter.query) == query_source(
                old(self).highlighter.query,
            ),
            parser_ready(final(self).highlighter.parser) == parser_ready(
                old(self).highlighter.parser,
            ),
            (old(self).hl_synced() && parser_ready(old(self).highlighter.parser)
                && is_ascii_chars(old(self).text())) ==> final(self).hl_synced(),
            ({
                let s = old(self).text();
                let sel = old(self).selection;
                if sel.0.start != sel.0.end {
                    let c = sel.spec_corrected();
                    let a = offset_of(s, c.0.start);
                    let b = offset_of(s, c.0.end);
                    &&& final(self).selection.0.start == c.0.start
                    &&& final(self).selection.0.end == c.0.start
                    &&& final(self).cursor.0 == c.0.start
                    &&& final(self).text() == remove_span(s, a, b)
                    &&& !final(self).document.is_saved
                } else {
                    let p = old(self).cursor.0;
                    let a = offset_of(s, p);
                    let ok = line_len_at(s, p.line as nat) != 0 && a + 1 <= s.len();
                    &&& final(self).selection == old(self).selection
                    &&& final(self).cursor == old(self).cursor
                    &&& if ok {
                        &&& final(self).text() == remove_span(s, a, a + 1)
                        &&& !final(self).document.is_saved
                    } else {
                        &&& final(self).text() == s
                        &&& final(self).document.is_saved == old(self).document.is_saved
                        &&& final(self).highlighter.tree == old(self).highlighter.tree
                    }
                }
            }),
    {
        let ghost s = self.text();
        proof {
            lemma_insert_prereqs(s, self.selection, self.cursor.0);
        }
        let cursor_pos = self.get_position();
        if !self.selection.is_empty() {
            proof {
                lemma_nonempty_selection_spans(s, self.selection);
                if is_ascii_chars(s) {
                    let c = self.selection.spec_corrected();
                    crate::highlight::lemma_delete_descriptor_accurate(
                        s,
                        offset_of(s, c.0.start) as usize,
                        offset_of(s, c.0.end) as usize,
                        c.0.start,
                        c.0.end,
                    );
                }
            }
            let selection = self.selection.correct_position();
            self.selection.clear(&mut self.cursor);
            let bytes = self.document.delete(selection.start(), selection.end());
            if let Some(bytes) = bytes {
                self.character_deleted(bytes.start, bytes.end, *selection.start(), *selection.end())
            } else {
                proof {
                    assert(false);
                }
            }
        } else {
            let total = self.document.len_chars();
            let a = self.document.get_character_pos(&self.cursor.0);
            let end_point = if a < total {
                Some(self.document.offset_to_position(a + 1))
            } else {
                None
            };
            let start = self.document.delete(
                &self.cursor.0,
                &Position::new(self.cursor.0.line(), self.cursor.0.character() + 1),
            );
            if let Some(value) = &start {
                let end_pos = match end_point {
                    Some(p) => p,
                    // The delete applied, so the end offset was within the
                    // text and a canonical end point was computed above.
                    None => cursor_pos,
                };
                proof {
                    if is_ascii_chars(s) {
                        crate::highlight::lemma_delete_descriptor_accurate(
                            s,
                            value.start,
                            value.end,
                            cursor_pos,
                            end_pos,
                        );
                    }
                }
                self.character_deleted(value.start, value.end, cursor_pos, end_pos)
            }
        }
    }

    /// Replace the span between the two positions with `character`, leaving
    /// cursor, selection and highlight index untouched.
    pub fn replace(&mut self, start_idx: &Position, end_idx: &Position, character: String)
        requires
            pos_ok(old(self).text(), *start_idx),
            end_idx.line < num_lines(old(self).text()),
            offset_of(old(self).text(), *end_idx) <= usize::MAX,
            pos_le(*start_idx, *end_idx),
        ensures
            ({
                let s = old(self).text();
                let a = offset_of(s, *start_idx);
                let b = offset_of(s, *end_idx);
                final(self).text() == if line_len_at(s, start_idx.line as nat) != 0 && b <= s.len() {
                    splice(remove_span(s, a, b), a, character@)
                } else {
                    splice(s, a, character@)
                }
            }),
            !final(self).document.is_saved,
            final(self).document.file_data == old(self).document.file_data,
            final(self).highlighter == old(self).highlighter,
            final(self).selection == old(self).selection,
            final(self).cursor == old(self).cursor,
            final(self).window == old(self).window,
            final(self).diagnostics == old(self).diagnostics,
    {
        self.document.replace(start_idx, end_idx, character);
    }

    /// Move the cursor up or down, scrolling the window one step when the
    /// cursor sits near the edge being moved toward, and clamp the cursor
    /// onto valid bounds.
    pub fn move_vertically(&mut self, distance: isize)
        requires
            old(self).window.lineheight >= 1,
            old(self).window.offset_y + old(self).window.height + old(self).window.lineheight
                <= usize::MAX,
            num_lines(old(self).text()) * old(self).window.lineheight <= usize::MAX,
            old(self).cursor.0.line + 2 <= usize::MAX,
            old(self).window.spec_start_line() + 2 <= usize::MAX,
        ensures
            final(self).document == old(self).document,
            final(self).highlighter == old(self).highlighter,
            final(self).selection == old(self).selection,
            final(self).diagnostics == old(self).diagnostics,
            (final(self).window, final(self).cursor.0) == spec_after_move_vertically(
                old(self).text(),
                old(self).window,
                old(self).cursor.0,
                distance as int,
            ),
            pos_ok(final(self).text(), final(self).cursor.0),
    {
        let len = self.len();
        if self.cursor.0.line() + 2 >= self.window.end_line() && distance > 0 {
            self.window.move_offset_y(MoveDirectionY::Down, len);
        } else if self.cursor.0.line() <= self.window.start_line() + 2 && distance < 0 {
            self.window.move_offset_y(MoveDirectionY::Up, len);
        }
        self.cursor.move_vertically(distance);
        self.correct_position();
    }

    /// Move the cursor left or right, clamp it onto valid bounds, and
    /// scroll the window one step when the clamped cursor sits near the
    /// edge being moved toward.
    pub fn move_horizontally(&mut self, distance: isize, text_info: &TextInfo)
        requires
            text_info.text_width >= 1,
            old(self).window.offset_x + old(self).window.width + text_info.text_width
                <= usize::MAX,
            text_info.longest_line * text_info.text_width <= usize::MAX,
            old(self).text().len() + 5 <= usize::MAX,
            old(self).window.spec_start_character(text_info.text_width) + 5 <= usize::MAX,
        ensures
            final(self).document == old(self).document,
            final(self).highlighter == old(self).highlighter,
            final(self).selection == old(self).selection,
            final(self).diagnostics == old(self).diagnostics,
            (final(self).window, final(self).cursor.0) == spec_after_move_horizontally(
                old(self).text(),
                old(self).window,
                old(self).cursor.0,
                distance as int,
                text_info.longest_line,
                text_info.text_width,
            ),
            pos_ok(final(self).text(), final(self).cursor.0),
    {
        let text_width = text_info.text_width;
        let longest_line = text_info.longest_line;
        self.cursor.move_horizontally(distance);
        self.correct_position();
        proof {
            lemma_corrected_char_bound(self.text(), self.cursor.0);
        }
        if self.cursor.0.character() + 5 >= self.window.end_character(text_width) && distance > 0 {
            self.window.move_offset_x(MoveDirectionX::Right, longest_line, text_width);
        } else if self.cursor.0.character() <= self.window.start_character(text_width) + 5
            && distance < 0 {
            self.window.move_offset_x(MoveDirectionX::Left, longest_line, text_width);
        }
    }

    /// Advance by `distance` columns, wrapping to the start of the next
    /// line when that would run past the end of the cursor's row.
    pub fn move_next(&mut self, distance: isize, text_info: &TextInfo)
        requires
            distance >= 0,
            old(self).cursor.0.line < num_lines(old(self).text()),
            old(self).cursor.0.character + distance <= usize::MAX,
            old(self).window.lineheight >= 1,
            old(self).window.offset_y + old(self).window.height + old(self).window.lineheight
                <= usize::MAX,
            num_lines(old(self).text()) * old(self).window.lineheight <= usize::MAX,
            old(self).cursor.0.line + 2 <= usize::MAX,
            old(self).window.spec_start_line() + 2 <= usize::MAX,
            text_info.text_width >= 1,
            old(self).window.offset_x + old(self).window.width + text_info.text_width
                <= usize::MAX,
            text_info.longest_line * text_info.text_width <= usize::MAX,
            old(self).text().len() + 5 <= usize::MAX,
            old(self).window.spec_start_character(text_info.text_width) + 5 <= usize::MAX,
        ensures
            final(self).document == old(self).document,
            final(self).highlighter == old(self).highlighter,
            final(self).selection == old(self).selection,
            final(self).diagnostics == old(self).diagnostics,
            ({
                let s = old(self).text();
                let cur = old(self).cursor.0;
                if cur.character + distance > line_len_at(s, cur.line as nat) {
                    let mv = spec_after_move_vertically(s, old(self).window, cur, 1);
                    &&& final(self).window == mv.0
                    &&& final(self).cursor.0 == (Position { line: mv.1.line, character: 0 })
                } else {
                    (final(self).window, final(self).cursor.0) == spec_after_move_horizontally(
                        s,
                        old(self).window,
                        cur,
                        distance as int,
                        text_info.longest_line,
                        text_info.text_width,
                    )
                }
            }),
            pos_ok(final(self).text(), final(self).cursor.0),
    {
        let row_len = self.get_cursor_row_len();
        if self.cursor.0.character() + (distance as usize) > row_len {
            self.move_vertically(1);
            self.cursor.0.set_character(0);
            proof {
                lemma_line_start_props(self.text(), self.cursor.0.line as nat);
                lemma_find_nl_props(
                    self.text(),
                    crate::text_model::line_start(self.text(), self.cursor.0.line as nat),
                );
            }
            return ;
        }
        self.move_horizontally(distance, text_info);
    }

    /// Step back by `distance` columns, wrapping to the end of the previous
    /// line when that would run past the start of the cursor's row.
    pub fn move_previous(&mut self, distance: isize, text_info: &TextInfo)
        requires
            distance >= 0,
            old(self).window.lineheight >= 1,
            old(self).window.offset_y + old(self).window.height + old(self).window.lineheight
                <= usize::MAX,
            num_lines(old(self).text()) * old(self).window.lineheight <= usize::MAX,
            old(self).cursor.0.line + 2 <= usize::MAX,
            old(self).window.spec_start_line() + 2 <= usize::MAX,
            text_info.text_width >= 1,
            old(self).window.offset_x + old(self).window.width + text_info.text_width
                <= usize::MAX,
            text_info.longest_line * text_info.text_width <= usize::MAX,
            old(self).text().len() + 5 <= usize::MAX,
            old(self).window.spec_start_character(text_info.text_width) + 5 <= usize::MAX,
        ensures
            final(self).document == old(self).document,
            final(self).highlighter == old(self).highlighter,
            final(self).selection == old(self).selection,
            final(self).diagnostics == old(self).diagnostics,
            ({
                let s = old(self).text();
                let cur = old(self).cursor.0;
                if cur.character < distance {
                    let mv = spec_after_move_vertically(s, old(self).window, cur, -1);
                    let ll = line_len_at(s, mv.1.line as nat);
                    &&& final(self).window == mv.0
                    &&& final(self).cursor.0 == (Position {
                        line: mv.1.line,
                        character: if ll >= 1 {
                            (ll - 1) as usize
                        } else {
                            0usize
                        },
                    })
                } else {
                    (final(self).window, final(self).cursor.0) == spec_after_move_horizontally(
                        s,
                        old(self).window,
                        cur,
                        -(distance as int),
                        text_info.longest_line,
                        text_info.text_width,
                    )
                }
            }),
            pos_ok(final(self).text(), final(self).cursor.0),
    {
        if self.cursor.0.character() < (distance as usize) {
            self.move_vertically(-1);
            let row_len = self.get_cursor_row_len();
            self.cursor.0.set_character(if row_len >= 1 {
                row_len - 1
            } else {
                0
            });
            proof {
                lemma_corrected_char_bound(self.text(), self.cursor.0);
            }
            return ;
        }
        self.move_horizontally(-distance, text_info);
    }

    /// Scroll the window so the cursor lies inside it, clamped to the
    /// content extent.
    pub fn correct_position_to_cursor(&mut self, text_width: usize, longest_line: usize)
        requires
            old(self).window.lineheight >= 1,
            text_width >= 1,
            pos_ok(old(self).text(), old(self).cursor.0),
            old(self).cursor.0.character <= longest_line,
            (num_lines(old(self).text()) + 1) * old(self).window.lineheight + old(self).window.height <= usize::MAX,
            (longest_line + 1) * text_width + old(self).window.width <= usize::MAX,
            old(self).window.offset_y + old(self).window.height + old(self).window.lineheight
                <= usize::MAX,
            old(self).window.offset_x + old(self).window.width + text_width <= usize::MAX,
        ensures
            final(self).document == old(self).document,
            final(self).highlighter == old(self).highlighter,
            final(self).selection == old(self).selection,
            final(self).cursor == old(self).cursor,
            final(self).diagnostics == old(self).diagnostics,
            final(self).window == crate::window::spec_scroll_to_cursor(
                old(self).window,
                old(self).cursor,
                text_width,
                longest_line,
                num_lines(old(self).text()) as usize,
            ),
            final(self).window.spec_start_line() <= old(self).cursor.0.line <= final(self).window.spec_end_line(),
            final(self).window.spec_start_character(text_width) <= old(self).cursor.0.character
                <= final(self).window.spec_end_character(text_width),
            final(self).window.offset_y <= num_lines(old(self).text()) * old(self).window.lineheight,
            final(self).window.offset_x <= longest_line * text_width,
    {
        let len = self.len();
        self.window.correct_position_to_cursor(self.cursor, text_width, longest_line, len);
    }

    /// The text between the corrected selection's endpoints.
    pub fn get_selected_text(&self) -> (r: String)
        requires
            pos_ok(self.text(), self.selection.0.start),
            pos_ok(self.text(), self.selection.0.end),
        ensures
            r@ == self.text().subrange(
                offset_of(self.text(), self.selection.spec_corrected().0.start),
                offset_of(self.text(), self.selection.spec_corrected().0.end),
            ),
    {
        proof {
            lemma_insert_prereqs(self.text(), self.selection, self.selection.0.start);
        }
        let total = self.document.len_chars();
        let selection = self.selection.correct_position();
        let start_bytes = self.document.get_line_bytes(selection.start().line())
            + selection.start().character();
        let end_bytes = self.document.get_line_bytes(selection.end().line())
            + selection.end().character();
        self.document.str_from_range(start_bytes, end_bytes)
    }

    /// The capture list for the padded visible line range: the visible
    /// lines with two lines of margin on each side, handed to the highlight
    /// index as a byte span.
    pub fn get_highlighter(&self) -> (r: Option<Highlighter>)
        requires
            self.window.lineheight >= 1,
            self.window.offset_y + self.window.height + self.window.lineheight <= usize::MAX,
            self.window.spec_end_line() + 2 <= usize::MAX,
        ensures
            r is Some,
            self.hl_synced() ==> caps_view(r->Some_0.captures@) == captures_of(
                query_source(self.highlighter.query),
                self.text(),
                line_start_clamped(
                    self.text(),
                    (if self.window.spec_start_line() < 2 {
                        0int
                    } else {
                        self.window.spec_start_line() - 2
                    }) as nat,
                ),
                line_start_clamped(self.text(), (self.window.spec_end_line() + 2) as nat),
            ),
    {
        let start_line = self.window.padded_start_line();
        let start_line = self.document.get_line_bytes(start_line);
        let end_line = self.window.padded_end_line();
        let end_line = self.document.get_line_bytes(end_line);
        Highlighter::new(
            &self.highlighter,
            core::ops::Range { start: start_line, end: end_line },
            self.buffer(),
        )
    }
}

/// A non-empty selection with both endpoints in bounds never starts on an
/// empty line — only the final empty line after a trailing newline is
/// empty, and no distinct in-bounds position lies at or past it — so the
/// deletion of its corrected span always applies.
proof fn lemma_nonempty_selection_spans(s: Seq<char>, sel: Selection)
    requires
        pos_ok(s, sel.0.start),
        pos_ok(s, sel.0.end),
        sel.0.start != sel.0.end,
    ensures
        line_len_at(s, sel.spec_corrected().0.start.line as nat) != 0,
{
    let c = sel.spec_corrected();
    lemma_insert_prereqs(s, sel, sel.0.start);
    let l = c.0.start.line as nat;
    let p = crate::text_model::line_start(s, l);
    let f = crate::text_model::find_nl(s, p);
    lemma_line_start_props(s, l);
    lemma_find_nl_props(s, p);
    if line_len_at(s, l) == 0 {
        if f < s.len() {
            assert(false);
        }
        if c.0.start.line == c.0.end.line {
            assert(c.0.start == c.0.end);
            assert(false);
        } else {
            lemma_line_start_props(s, (c.0.start.line + 1) as nat);
            assert(false);
        }
    }
}

/// The character of a position that the correction pass produced never
/// runs past the end of the text.
proof fn lemma_corrected_char_bound(s: Seq<char>, p: Position)
    requires
        pos_in_bounds(s, p.line as nat, p.character as nat),
    ensures
        p.character <= s.len(),
{
    lemma_line_start_props(s, p.line as nat);
    lemma_find_nl_props(s, crate::text_model::line_start(s, p.line as nat));
}

/// With both selection endpoints and the cursor in bounds, the offsets that
/// the editing operations compute are ordered and within the text.
proof fn lemma_insert_prereqs(s: Seq<char>, sel: Selection, cur: Position)
    requires
        pos_ok(s, sel.0.start),
        pos_ok(s, sel.0.end),
        pos_ok(s, cur),
    ensures
        pos_ok(s, sel.spec_corrected().0.start),
        pos_ok(s, sel.spec_corrected().0.end),
        pos_le(sel.spec_corrected().0.start, sel.spec_corrected().0.end),
        offset_of(s, sel.spec_corrected().0.start) <= offset_of(s, sel.spec_corrected().0.end),
        offset_of(s, sel.spec_corrected().0.end) <= s.len(),
        offset_of(s, cur) <= s.len(),
        offset_of(s, sel.spec_corrected().0.start) <= s.len(),
        0 <= offset_of(s, sel.spec_corrected().0.start),
        sel.spec_corrected().0.start.character <= s.len(),
        sel.spec_corrected().0.end.character <= s.len(),
        cur.character <= s.len(),
        cur.line <= count_nl(s),
        sel.spec_corrected().0.start.line <= count_nl(s),
{
    let c = sel.spec_corrected();
    lemma_position_offset_round_trip(s, c.0.start.line as nat, c.0.start.character as nat);
    lemma_position_offset_round_trip(s, c.0.end.line as nat, c.0.end.character as nat);
    lemma_position_offset_round_trip(s, cur.line as nat, cur.character as nat);
    lemma_line_start_props(s, c.0.start.line as nat);
    lemma_line_start_props(s, c.0.end.line as nat);
    lemma_line_start_props(s, cur.line as nat);
    if c.0.start.line < c.0.end.line {
        lemma_line_start_props(s, c.0.start.line as nat);
        lemma_find_nl_props(s, crate::text_model::line_start(s, c.0.start.line as nat));
        lemma_line_start_mono(s, (c.0.start.line + 1) as nat, c.0.end.line as nat);
    }
}

} // verus!
