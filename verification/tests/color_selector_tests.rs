use editor_core::color_selector::{ColorSelector, HighlightIter, Rgb};
use editor_core::highlight::{CaptureRange, HighlightItem};
use editor_core::position::Position;

fn item(class: &str, start: (usize, usize), end: (usize, usize)) -> HighlightItem {
    HighlightItem {
        capture_name: String::from(class),
        kind: String::from("Does not matter"),
        range: CaptureRange {
            start_byte: 0,
            end_byte: 0,
            start_point: Position::new(start.0, start.1),
            end_point: Position::new(end.0, end.1),
        },
    }
}

#[test]
fn test_color_selector_past_range() {
    // Setup highlighter with one empty span at the origin.
    let highlighter_items = vec![item("constant", (0, 0), (0, 0))];
    let mut highlighter = HighlightIter::new(highlighter_items);
    let mut current_item = highlighter.next();

    // Set the editor position
    let pos = Position::new(0, 0);

    // Select a color
    let color_selector = ColorSelector;
    let color = color_selector.select(&mut highlighter, &mut current_item, &pos);

    // Should try to get the next item, which will become `None`
    assert!(current_item.is_none());

    // Should use the default color
    assert_eq!(color, color_selector.default_text_color());
}

#[test]
fn test_color_selector_within_range() {
    let highlighter_items = vec![item("constant", (0, 0), (0, 3))];
    let mut highlighter = HighlightIter::new(highlighter_items);
    let mut current_item = highlighter.next();

    // Set the editor position
    let pos = Position::new(0, 0);

    // Select a color
    let color_selector = ColorSelector;
    let color = color_selector.select(&mut highlighter, &mut current_item, &pos);

    // The candidate is kept for later positions.
    assert!(current_item.is_some());

    // Should use the capture's class color
    assert_eq!(color, color_selector.get_highlighter_color("constant"));
    assert_eq!(color, Rgb { red: 209, green: 154, blue: 102 });
}

#[test]
fn test_color_selector_before_range() {
    let highlighter_items = vec![item("constant", (0, 5), (0, 10))];
    let mut highlighter = HighlightIter::new(highlighter_items);
    let mut current_item = highlighter.next();

    // Set the editor position
    let pos = Position::new(0, 0);

    // Select a color
    let color_selector = ColorSelector;
    let color = color_selector.select(&mut highlighter, &mut current_item, &pos);

    // We shouldn't change the current item.
    assert!(current_item.is_some());

    // Should use the default color
    assert_eq!(color, color_selector.default_text_color());
}

#[test]
fn test_selector_string_span() {
    // One capture span of class "string" covering (0,5)..(0,10).
    let selector = ColorSelector;

    // A position inside the span selects the span's class.
    let mut iter = HighlightIter::new(vec![item("string", (0, 5), (0, 10))]);
    let mut current = iter.next();
    let color = selector.select(&mut iter, &mut current, &Position::new(0, 7));
    assert_eq!(color, selector.get_highlighter_color("string"));
    assert_eq!(color, Rgb { red: 110, green: 255, blue: 89 });
    assert!(current.is_some());

    // A position before the span gets the default class and the span stays.
    let mut iter = HighlightIter::new(vec![item("string", (0, 5), (0, 10))]);
    let mut current = iter.next();
    let color = selector.select(&mut iter, &mut current, &Position::new(0, 3));
    assert_eq!(color, selector.default_text_color());
    assert!(current.is_some());

    // A position past the span advances past it and also gets the default.
    let mut iter = HighlightIter::new(vec![item("string", (0, 5), (0, 10))]);
    let mut current = iter.next();
    let color = selector.select(&mut iter, &mut current, &Position::new(0, 12));
    assert_eq!(color, selector.default_text_color());
    assert!(current.is_none());
}

#[test]
fn test_selector_advances_to_matching_span() {
    let selector = ColorSelector;
    let mut iter = HighlightIter::new(vec![
        item("keyword", (0, 0), (0, 2)),
        item("function", (0, 3), (0, 7)),
    ]);
    let mut current = iter.next();
    let color = selector.select(&mut iter, &mut current, &Position::new(0, 5));
    assert_eq!(color, selector.get_highlighter_color("function"));
}

#[test]
fn test_color_table() {
    let selector = ColorSelector;
    assert_eq!(
        selector.get_highlighter_color("type"),
        Rgb { red: 229, green: 192, blue: 123 }
    );
    assert_eq!(
        selector.get_highlighter_color("keyword"),
        Rgb { red: 198, green: 120, blue: 221 }
    );
    assert_eq!(
        selector.get_highlighter_color("comment"),
        Rgb { red: 153, green: 153, blue: 153 }
    );
    assert_eq!(
        selector.get_highlighter_color("unknown-class"),
        selector.default_text_color()
    );
}
