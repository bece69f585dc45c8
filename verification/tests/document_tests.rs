use editor_core::document::{Document, FileData};
use editor_core::position::Position;

#[test]
fn test_new_document_is_empty_and_saved() {
    let doc = Document::new();
    assert_eq!(doc.to_string(), "");
    assert!(doc.is_saved());
    assert!(doc.filename().is_none());
    assert_eq!(doc.len(), 1);
}

#[test]
fn test_from_text_keeps_identity() {
    let doc = Document::from_text(
        "hello",
        Some(FileData { name: String::from("a.rs"), uri: String::from("file:///a.rs") }),
    );
    assert_eq!(doc.to_string(), "hello");
    assert_eq!(doc.filename(), Some(&String::from("a.rs")));
    assert_eq!(doc.uri(), Some(&String::from("file:///a.rs")));
}

#[test]
fn test_insert_marks_dirty_and_returns_offset() {
    let mut doc = Document::from_text("ab\ncd", None);
    let start = doc.insert(&Position::new(1, 1), String::from("X"));
    assert_eq!(start, 4);
    assert_eq!(doc.to_string(), "ab\ncXd");
    assert!(!doc.is_saved());
}

#[test]
fn test_delete_span() {
    let mut doc = Document::from_text("hello", None);
    let bytes = doc.delete(&Position::new(0, 0), &Position::new(0, 3));
    let bytes = bytes.expect("delete should apply");
    assert_eq!(bytes.start, 0);
    assert_eq!(bytes.end, 3);
    assert_eq!(doc.to_string(), "lo");
    assert!(!doc.is_saved());
}

#[test]
fn test_delete_past_end_is_noop() {
    let mut doc = Document::from_text("hi", None);
    let bytes = doc.delete(&Position::new(0, 2), &Position::new(0, 3));
    assert!(bytes.is_none());
    assert_eq!(doc.to_string(), "hi");
    assert!(doc.is_saved());
}

#[test]
fn test_delete_on_empty_line_is_noop() {
    // A trailing newline opens a final empty line.
    let mut doc = Document::from_text("a\n", None);
    let bytes = doc.delete(&Position::new(1, 0), &Position::new(1, 1));
    assert!(bytes.is_none());
    assert_eq!(doc.to_string(), "a\n");
}

#[test]
fn test_replace_returns_deleted_span() {
    let mut doc = Document::from_text("hello", None);
    let bytes = doc.replace(&Position::new(0, 1), &Position::new(0, 4), String::from("XY"));
    let bytes = bytes.expect("delete half should apply");
    assert_eq!((bytes.start, bytes.end), (1, 4));
    assert_eq!(doc.to_string(), "hXYo");
}

#[test]
fn test_offset_round_trip() {
    let doc = Document::from_text("ab\ncde\n\nf", None);
    // Every in-bounds position maps to an offset and back unchanged.
    for (line, len) in [(0usize, 3usize), (1, 4), (2, 1), (3, 1)] {
        for character in 0..len {
            let p = Position::new(line, character);
            let offset = doc.get_character_pos(&p);
            let back = doc.offset_to_position(offset);
            assert_eq!(back, p);
        }
    }
    // And every offset maps to a position and back unchanged.
    for offset in 0..=9usize {
        let p = doc.offset_to_position(offset);
        assert_eq!(doc.get_character_pos(&p), offset);
    }
}

#[test]
fn test_line_len_counts_newline() {
    let doc = Document::from_text("ab\ncde", None);
    assert_eq!(doc.line_len(0), 3);
    assert_eq!(doc.line_len(1), 3);
    assert_eq!(doc.len(), 2);
}

#[test]
fn test_get_line_bytes_clamps() {
    let doc = Document::from_text("ab\ncd", None);
    assert_eq!(doc.get_line_bytes(0), 0);
    assert_eq!(doc.get_line_bytes(1), 3);
    assert_eq!(doc.get_line_bytes(2), 5);
    assert_eq!(doc.get_line_bytes(99), 5);
}

#[test]
fn test_get_line_and_last_line() {
    let doc = Document::from_text("ab\ncd", None);
    assert_eq!(doc.get_line(0), Some(String::from("ab\n")));
    assert_eq!(doc.get_line(1), Some(String::from("cd")));
    assert_eq!(doc.get_line(2), None);
    assert_eq!(doc.last_line(), Some(String::from("cd")));
}

#[test]
fn test_str_from_range() {
    let doc = Document::from_text("hello world", None);
    assert_eq!(doc.str_from_range(6, 11), "world");
}

#[test]
fn test_mark_saved_adopts_identity_once() {
    let mut doc = Document::new();
    doc.insert(&Position::new(0, 0), String::from("x"));
    assert!(!doc.is_saved());
    doc.mark_saved(String::from("n.rs"), String::from("file:///n.rs"));
    assert!(doc.is_saved());
    assert_eq!(doc.filename(), Some(&String::from("n.rs")));
    // A later save under another hint does not replace the identity.
    doc.mark_saved(String::from("other.rs"), String::from("file:///other.rs"));
    assert_eq!(doc.filename(), Some(&String::from("n.rs")));
}
