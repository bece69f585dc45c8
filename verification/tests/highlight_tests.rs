use editor_core::document::Document;
use editor_core::highlight::{
    delete_edit_descriptor, insert_edit_descriptor, HighlightItem, Highlighter,
    HighlighterConfig,
};
use editor_core::position::Position;

fn captures_for(config: &HighlighterConfig, doc: &Document) -> Vec<HighlightItem> {
    let end = doc.to_string().len();
    let highlighter = Highlighter::new(config, 0..end, doc).expect("query runs");
    highlighter.captures
}

fn same_captures(a: &[HighlightItem], b: &[HighlightItem]) -> bool {
    a.len() == b.len()
        && a.iter().zip(b.iter()).all(|(x, y)| {
            x.capture_name == y.capture_name
                && x.kind == y.kind
                && x.range.start_byte == y.range.start_byte
                && x.range.end_byte == y.range.end_byte
                && x.range.start_point == y.range.start_point
                && x.range.end_point == y.range.end_point
        })
}

#[test]
fn test_insert_edit_descriptor_formula() {
    let d = insert_edit_descriptor(10, 12, Position::new(1, 2), Position::new(1, 4), "xyz");
    assert_eq!(d.start_byte, 10);
    assert_eq!(d.old_end_byte, 12);
    assert_eq!(d.new_end_byte, 13);
    assert_eq!(d.start_position, Position::new(1, 2));
    assert_eq!(d.old_end_position, Position::new(1, 4));
    assert_eq!(d.new_end_position, Position::new(1, 5));
}

#[test]
fn test_insert_edit_descriptor_multi_line() {
    let d = insert_edit_descriptor(10, 10, Position::new(1, 2), Position::new(1, 2), "ab\ncd");
    assert_eq!(d.new_end_byte, 15);
    // The new end point lies past the inserted newline, at its true column.
    assert_eq!(d.new_end_position, Position::new(2, 2));
}

#[test]
fn test_delete_edit_descriptor_formula() {
    let d = delete_edit_descriptor(10, 12, Position::new(1, 2), Position::new(1, 4));
    assert_eq!(d.start_byte, 10);
    assert_eq!(d.old_end_byte, 12);
    assert_eq!(d.new_end_byte, 10);
    assert_eq!(d.start_position, Position::new(1, 2));
    assert_eq!(d.old_end_position, Position::new(1, 4));
    assert_eq!(d.new_end_position, Position::new(1, 2));
}

#[test]
fn test_rust_config_finds_function_capture() {
    let source = "fn main() {}";
    let config = HighlighterConfig::rust_config(source, tree_sitter_rust::HIGHLIGHT_QUERY)
        .expect("grammar and query load");
    let doc = Document::from_text(source, None);
    let captures = captures_for(&config, &doc);
    assert!(!captures.is_empty());
    assert!(captures.iter().any(|c| {
        c.capture_name == "function"
            && c.range.start_point == Position::new(0, 3)
            && c.range.end_point == Position::new(0, 7)
    }));
}

#[test]
fn test_bad_query_fails_construction() {
    assert!(HighlighterConfig::rust_config("fn main() {}", "(((").is_none());
}

#[test]
fn test_reparse_round_trip_restores_captures() {
    // An edit followed by its exact inverse restores the capture list.
    let source = "fn main() { let x = 1; }\n";
    let config = HighlighterConfig::rust_config(source, tree_sitter_rust::HIGHLIGHT_QUERY)
        .expect("grammar and query load");
    let mut config = config;
    let mut doc = Document::from_text(source, None);
    let before = captures_for(&config, &doc);

    // Insert "yy" right after "let ".
    let at = Position::new(0, 16);
    let start = doc.insert(&at, String::from("yy"));
    assert!(config.insert(start, start, at, at, "yy", &doc.to_string()));
    let during = captures_for(&config, &doc);
    assert!(!same_captures(&before, &during));

    // Delete it again.
    let end = Position::new(0, 18);
    let removed = doc.delete(&at, &end).expect("span exists");
    assert!(config.delete(removed.start, removed.end, at, end, &doc.to_string()));
    assert_eq!(doc.to_string(), source);

    let after = captures_for(&config, &doc);
    assert!(same_captures(&before, &after));
}
