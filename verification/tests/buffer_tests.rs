use editor_core::buffer::{Buffer, TextInfo};
use editor_core::diagnostics::{ClientDiagnostics, Issue, Severity};
use editor_core::document::{Document, FileData};
use editor_core::highlight::HighlighterConfig;
use editor_core::position::Position;
use editor_core::selection::Range;

fn buffer_over(text: &str) -> Buffer {
    let config = HighlighterConfig::rust_config(text, tree_sitter_rust::HIGHLIGHT_QUERY)
        .expect("grammar and query load");
    let doc = Document::from_text(text, None);
    Buffer::new(doc, config, 20)
}

fn named_buffer_over(text: &str, name: &str, uri: &str) -> Buffer {
    let config = HighlighterConfig::rust_config(text, tree_sitter_rust::HIGHLIGHT_QUERY)
        .expect("grammar and query load");
    let doc = Document::from_text(
        text,
        Some(FileData { name: String::from(name), uri: String::from(uri) }),
    );
    Buffer::new(doc, config, 20)
}

#[test]
fn test_insert_at_cursor_moves_cursor_past_newline() {
    // Inserting "foo\nbar" at (0,0) puts the cursor at (1,3).
    let mut buffer = buffer_over("");
    let change = buffer.insert(String::from("foo\nbar"));
    assert!(change.is_none());
    assert_eq!(buffer.get_string(), "foo\nbar");
    assert_eq!(buffer.get_position(), Position::new(1, 3));
}

#[test]
fn test_insert_single_line_advances_character() {
    let mut buffer = buffer_over("");
    buffer.insert(String::from("ab"));
    assert_eq!(buffer.get_position(), Position::new(0, 2));
    buffer.insert(String::from("c"));
    assert_eq!(buffer.get_position(), Position::new(0, 3));
    assert_eq!(buffer.get_string(), "abc");
}

#[test]
fn test_delete_with_selection_collapses() {
    // Deleting {(0,0), (0,3)} over "hello" leaves "lo", cursor at (0,0).
    let mut buffer = buffer_over("hello");
    buffer.selection.set_start(Position::new(0, 0));
    buffer.selection.set_end(Position::new(0, 3));
    buffer.delete();
    assert_eq!(buffer.get_string(), "lo");
    assert_eq!(buffer.get_position(), Position::new(0, 0));
    assert!(buffer.selection.is_empty());
    assert_eq!(*buffer.selection.start(), Position::new(0, 0));
}

#[test]
fn test_delete_backward_selection_collapses_to_smaller() {
    let mut buffer = buffer_over("hello");
    buffer.selection.set_start(Position::new(0, 3));
    buffer.selection.set_end(Position::new(0, 0));
    buffer.delete();
    assert_eq!(buffer.get_string(), "lo");
    assert_eq!(buffer.get_position(), Position::new(0, 0));
}

#[test]
fn test_delete_at_cursor_removes_one_character() {
    let mut buffer = buffer_over("hello");
    buffer.set_cursor(editor_core::position::Cursor(Position::new(0, 1)));
    buffer.delete();
    assert_eq!(buffer.get_string(), "hllo");
    assert_eq!(buffer.get_position(), Position::new(0, 1));
}

#[test]
fn test_insert_replaces_selection() {
    let mut buffer = named_buffer_over("hello", "h.rs", "file:///h.rs");
    buffer.selection.set_start(Position::new(0, 0));
    buffer.selection.set_end(Position::new(0, 4));
    let change = buffer.insert(String::from("J"));
    assert_eq!(buffer.get_string(), "Jo");
    assert_eq!(buffer.get_position(), Position::new(0, 1));
    let change = change.expect("named documents report changes");
    assert_eq!(change.range.start(), Position::new(0, 0));
    assert_eq!(change.range.end(), Position::new(0, 4));
    assert_eq!(change.byte_range.start, 0);
    assert_eq!(change.byte_range.end, 4);
    assert_eq!(change.text, "J");
    assert_eq!(change.file, "h.rs");
}

#[test]
fn test_correct_position_clamps_cursor() {
    let mut buffer = buffer_over("ab\ncde");
    buffer.set_cursor(editor_core::position::Cursor(Position::new(9, 9)));
    buffer.correct_position();
    // Clamped to the last line, one slot past its last character.
    assert_eq!(buffer.get_position(), Position::new(1, 3));

    buffer.set_cursor(editor_core::position::Cursor(Position::new(0, 9)));
    buffer.correct_position();
    // On an inner line the newline slot is the limit.
    assert_eq!(buffer.get_position(), Position::new(0, 2));
}

#[test]
fn test_get_selected_text() {
    let mut buffer = buffer_over("hello world");
    buffer.selection.set_start(Position::new(0, 6));
    buffer.selection.set_end(Position::new(0, 11));
    assert_eq!(buffer.get_selected_text(), "world");
    // A backward drag selects the same text.
    buffer.selection.set_start(Position::new(0, 11));
    buffer.selection.set_end(Position::new(0, 6));
    assert_eq!(buffer.get_selected_text(), "world");
}

#[test]
fn test_is_within_selection() {
    let mut buffer = buffer_over("hello");
    buffer.selection.set_start(Position::new(0, 1));
    buffer.selection.set_end(Position::new(0, 4));
    assert!(buffer.is_within_selection(&Position::new(0, 1)));
    assert!(!buffer.is_within_selection(&Position::new(0, 4)));
}

#[test]
fn test_diagnostics_only_adopted_for_matching_uri() {
    let issue = Issue {
        range: Range::new(Position::new(0, 0), Position::new(0, 5)),
        code_description: None,
        message: String::from("broken"),
        severity: Severity::Error,
    };
    let snapshot = ClientDiagnostics { issues: vec![issue], uri: String::from("file:///h.rs") };

    let mut other = named_buffer_over("hello", "x.rs", "file:///x.rs");
    other.add_diagnostics(snapshot.clone());
    assert!(other.find_diagnostic(None).is_none());

    let mut buffer = named_buffer_over("hello", "h.rs", "file:///h.rs");
    buffer.add_diagnostics(snapshot);
    let found = buffer.find_diagnostic(Some(Position::new(0, 2)));
    assert_eq!(found.expect("issue covers position").message, "broken");
    assert!(buffer.diagnostic_are_in_position(Position::new(0, 5)).is_none());
}

#[test]
fn test_move_vertically_corrects_cursor() {
    let mut buffer = buffer_over("ab\ncde\nf");
    buffer.set_cursor(editor_core::position::Cursor(Position::new(0, 1)));
    buffer.move_vertically(1);
    assert_eq!(buffer.get_position(), Position::new(1, 1));
    buffer.move_vertically(5);
    assert_eq!(buffer.get_position().line, 2);
}

#[test]
fn test_move_next_wraps_to_next_line() {
    let mut buffer = buffer_over("ab\ncde");
    let info = TextInfo { longest_line: 3, text_width: 10 };
    buffer.set_cursor(editor_core::position::Cursor(Position::new(0, 3)));
    buffer.move_next(1, &info);
    assert_eq!(buffer.get_position(), Position::new(1, 0));
}

#[test]
fn test_move_previous_wraps_to_previous_line() {
    let mut buffer = buffer_over("ab\ncde");
    let info = TextInfo { longest_line: 3, text_width: 10 };
    buffer.set_cursor(editor_core::position::Cursor(Position::new(1, 0)));
    buffer.move_previous(1, &info);
    assert_eq!(buffer.get_position(), Position::new(0, 2));
}

#[test]
fn test_correct_position_to_cursor_follows() {
    let mut buffer = buffer_over(&"x\n".repeat(100));
    let mut window = buffer.window;
    window.set_size(200, 380);
    buffer.set_window(window);
    buffer.set_cursor(editor_core::position::Cursor(Position::new(25, 0)));
    buffer.correct_position_to_cursor(10, 80);
    assert!(buffer.window.start_line() <= 25);
    assert!(buffer.window.end_line() >= 25);
}

#[test]
fn test_get_highlighter_returns_captures() {
    let mut buffer = buffer_over("fn main() {}\n");
    let mut window = buffer.window;
    window.set_size(200, 380);
    buffer.set_window(window);
    let highlighter = buffer.get_highlighter().expect("always produced");
    assert!(highlighter
        .captures
        .iter()
        .any(|c| c.capture_name == "function"));
}

#[test]
fn test_buffer_len_and_line_len() {
    let buffer = buffer_over("ab\ncde");
    assert_eq!(buffer.len(), 2);
    assert_eq!(buffer.line_len(0), 3);
    assert_eq!(buffer.line_len(1), 3);
    assert!(buffer.is_saved());
}
