use stringr::{Cursor, Position};

#[test]
fn new_cursor_has_no_selection() {
    let c = Cursor::new();
    assert_eq!(c.position, Position::new(0, 0));
    assert!(!c.has_selection());
    assert_eq!(c.selection_range(), None);
}

#[test]
fn selection_range_orders_positions() {
    let mut c = Cursor::new();
    c.position = Position::new(2, 1);
    c.anchor = Some(Position::new(0, 5));
    assert!(c.has_selection());
    assert_eq!(c.selection_range(), Some((Position::new(0, 5), Position::new(2, 1))));
    c.anchor = Some(Position::new(2, 3));
    assert_eq!(c.selection_range(), Some((Position::new(2, 1), Position::new(2, 3))));
    c.anchor = Some(Position::new(2, 1));
    assert_eq!(c.selection_range(), Some((Position::new(2, 1), Position::new(2, 1))));
}

#[test]
fn clear_selection_keeps_position() {
    let mut c = Cursor::new();
    c.position = Position::new(3, 4);
    c.anchor = Some(Position::new(1, 1));
    c.clear_selection();
    assert!(!c.has_selection());
    assert_eq!(c.position, Position::new(3, 4));
}
