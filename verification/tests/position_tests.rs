use editor_core::position::{Cursor, Position};

#[test]
fn test_position() {
    let position = Position { line: 4, character: 35 };

    assert_eq!(position, position);
    assert_ne!(position, Position { line: 4, character: 34 });
    assert_ne!(position, Position { line: 5, character: 35 });
}

#[test]
fn test_position_gt() {
    let position = Position { line: 4, character: 35 };

    assert!(position > Position { line: 3, character: 36 });
    assert!(position > Position { line: 4, character: 10 });

    // Should not be greater than
    assert!(!(position > position));
    assert!(!(position > Position { line: 5, character: 10 }));
    assert!(!(position > Position { line: 4, character: 40 }));
}

#[test]
fn test_position_lt() {
    let position = Position { line: 4, character: 35 };

    assert!(position < Position { line: 4, character: 36 });
    assert!(position < Position { line: 5, character: 10 });

    // Should not be Lesser than
    assert!(!(position < position));
    assert!(!(position < Position { line: 3, character: 40 }));
    assert!(!(position < Position { line: 4, character: 30 }));
}

#[test]
fn test_is_within_half_open() {
    let p = Position::new(0, 5);
    assert!(p.is_within(Position::new(0, 5), Position::new(0, 6)));
    assert!(!p.is_within(Position::new(0, 0), Position::new(0, 5)));
    assert!(p.is_within(Position::new(0, 0), Position::new(1, 0)));
}

#[test]
fn test_end_of_insert_single_line() {
    let p = Position::end_of_insert(String::from("abc"));
    assert_eq!(p, Position::new(0, 3));
}

#[test]
fn test_end_of_insert_multi_line() {
    let p = Position::end_of_insert(String::from("foo\nbar"));
    assert_eq!(p, Position::new(1, 3));
}

#[test]
fn test_end_of_insert_trailing_newline() {
    let p = Position::end_of_insert(String::from("a\n"));
    assert_eq!(p, Position::new(1, 0));
}

#[test]
fn test_end_of_insert_empty() {
    let p = Position::end_of_insert(String::new());
    assert_eq!(p, Position::new(0, 0));
}

#[test]
fn test_add_same_line_and_new_line() {
    let mut p = Position::new(2, 4);
    p.add(Position::new(0, 3));
    assert_eq!(p, Position::new(2, 7));

    let mut q = Position::new(2, 4);
    q.add(Position::new(1, 3));
    assert_eq!(q, Position::new(3, 3));
}

#[test]
fn test_cursor_moves_saturate() {
    let mut c = Cursor(Position::new(0, 1));
    c.move_horizontally(-5);
    assert_eq!(c.0, Position::new(0, 0));
    c.move_horizontally(3);
    assert_eq!(c.0, Position::new(0, 3));
    c.move_vertically(-2);
    assert_eq!(c.0, Position::new(0, 3));
    c.move_vertically(4);
    assert_eq!(c.0, Position::new(4, 3));
}

#[test]
fn test_cursor_move_to_end_of_insert() {
    let mut c = Cursor(Position::new(0, 0));
    c.move_to_end_of_insert(String::from("foo\nbar"));
    assert_eq!(c.0, Position::new(1, 3));

    let mut c2 = Cursor(Position::new(3, 2));
    c2.move_to_end_of_insert(String::from("xy"));
    assert_eq!(c2.0, Position::new(3, 4));
}
