use editor_core::position::{Cursor, Position};
use editor_core::selection::{Range, Selection};

#[test]
fn test_correct_position_orders_endpoints() {
    let mut sel = Selection::default();
    sel.set_start(Position::new(2, 5));
    sel.set_end(Position::new(1, 3));
    let corrected = sel.correct_position();
    assert_eq!(*corrected.start(), Position::new(1, 3));
    assert_eq!(*corrected.end(), Position::new(2, 5));
    // The original is left as it was.
    assert_eq!(*sel.start(), Position::new(2, 5));
}

#[test]
fn test_correct_position_keeps_ordered_pair() {
    let mut sel = Selection::default();
    sel.set_start(Position::new(0, 1));
    sel.set_end(Position::new(0, 4));
    let corrected = sel.correct_position();
    assert_eq!(*corrected.start(), Position::new(0, 1));
    assert_eq!(*corrected.end(), Position::new(0, 4));
}

#[test]
fn test_selection_contains_start_not_end() {
    let mut sel = Selection::default();
    sel.set_start(Position::new(0, 4));
    sel.set_end(Position::new(0, 1));
    let corrected = sel.correct_position();
    assert!(corrected.is_within(corrected.start()));
    assert!(!corrected.is_within(corrected.end()));
}

#[test]
fn test_empty_selection_contains_nothing() {
    let mut sel = Selection::default();
    sel.set_start(Position::new(1, 1));
    sel.set_end(Position::new(1, 1));
    assert!(sel.is_empty());
    assert!(!sel.is_within(&Position::new(1, 1)));
}

#[test]
fn test_clear_collapses_to_smaller_endpoint() {
    let mut sel = Selection::default();
    sel.set_start(Position::new(2, 2));
    sel.set_end(Position::new(0, 7));
    let mut cursor = Cursor(Position::new(9, 9));
    sel.clear(&mut cursor);
    assert_eq!(*sel.start(), Position::new(0, 7));
    assert_eq!(*sel.end(), Position::new(0, 7));
    assert_eq!(cursor.0, Position::new(0, 7));
}

#[test]
fn test_range_membership() {
    let range = Range::new(Position::new(1, 0), Position::new(2, 0));
    assert!(range.pos_in_range(Position::new(1, 0)));
    assert!(range.pos_in_range(Position::new(1, 99)));
    assert!(!range.pos_in_range(Position::new(2, 0)));
    assert!(!range.pos_in_range(Position::new(0, 5)));
}
