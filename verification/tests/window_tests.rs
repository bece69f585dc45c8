use editor_core::position::{Cursor, Position};
use editor_core::window::{MoveDirectionX, MoveDirectionY, VirtualWindow};

fn window(lineheight: usize, height: usize) -> VirtualWindow {
    let mut w = VirtualWindow::new().set_lineheight(lineheight);
    w.set_size(200, height);
    w
}

#[test]
fn test_visible_line_range() {
    let w = window(20, 400);
    assert_eq!(w.start_line(), 0);
    assert_eq!(w.end_line(), 20);
    assert_eq!(w.lines_height(), 20);
    assert_eq!(w.padded_start_line(), 0);
    assert_eq!(w.padded_end_line(), 22);
}

#[test]
fn test_visible_character_range() {
    let mut w = window(20, 400);
    w.set_offset(40, 0);
    assert_eq!(w.start_character(10), 4);
    assert_eq!(w.end_character(10), 24);
}

#[test]
fn test_cursor_follow_scrolls_down() {
    // A window showing lines 0..=19; the cursor moves to line 25.
    let mut w = window(20, 380);
    assert_eq!(w.end_line(), 19);
    w.correct_position_to_cursor(Cursor(Position::new(25, 0)), 10, 80, 100);
    assert!(w.start_line() <= 25);
    assert!(w.end_line() >= 25);
}

#[test]
fn test_cursor_follow_scrolls_up() {
    let mut w = window(20, 380);
    w.set_offset(0, 400);
    assert_eq!(w.start_line(), 20);
    w.correct_position_to_cursor(Cursor(Position::new(3, 0)), 10, 80, 100);
    assert!(w.start_line() <= 3);
    assert!(w.end_line() >= 3);
}

#[test]
fn test_cursor_follow_clamps_offsets() {
    let mut w = window(20, 380);
    w.set_offset(100_000, 100_000);
    w.correct_position_to_cursor(Cursor(Position::new(100, 80)), 10, 80, 100);
    assert!(w.start_line() <= 100);
    assert!(w.end_line() >= 100);
    let view: VirtualWindow = w;
    // Offsets never exceed the content extent.
    assert!(view.start_line() <= 100);
    assert_eq!(w.height(), 380);
}

#[test]
fn test_move_offset_y_clamps() {
    let mut w = window(20, 380);
    w.move_offset_y(MoveDirectionY::Up, 100);
    assert_eq!(w.start_line(), 0);
    w.move_offset_y(MoveDirectionY::Down, 100);
    assert_eq!(w.start_line(), 1);
}

#[test]
fn test_move_offset_x_clamps() {
    let mut w = window(20, 380);
    w.move_offset_x(MoveDirectionX::Left, 80, 10);
    assert_eq!(w.start_character(10), 0);
    w.move_offset_x(MoveDirectionX::Right, 80, 10);
    assert_eq!(w.start_character(10), 1);
}

#[test]
fn test_size_checks() {
    let mut w = VirtualWindow::new();
    w.set_size(640, 480);
    assert!(w.is_same(640, 480));
    assert!(!w.is_same(640, 481));
    assert!(w.size_is_different(640, 480));
}

#[test]
fn test_within_padded_window() {
    let mut w = window(10, 100);
    w.set_offset(0, 50);
    // padding is two line heights: rows from 30 up to 170 are inside.
    assert!(w.within(30));
    assert!(w.within(169));
    assert!(!w.within(29));
    assert!(!w.within(170));
}
