use stringr::{handle_key, Buffer, EditKey};

#[test]
fn typed_characters_insert_unless_ctrl_or_alt() {
    let mut b = Buffer::new();
    handle_key(&mut b, EditKey::Character('a'), false, false);
    handle_key(&mut b, EditKey::Character('s'), true, false);
    handle_key(&mut b, EditKey::Character('d'), false, true);
    assert_eq!(b.text(), "a");
    assert_eq!(b.cursor_col(), 1);
}

#[test]
fn enter_and_tab_insert_their_characters() {
    let mut b = Buffer::new_with_text("ab");
    handle_key(&mut b, EditKey::End, false, false);
    handle_key(&mut b, EditKey::Enter, false, false);
    handle_key(&mut b, EditKey::Tab, false, false);
    assert_eq!(b.text(), "ab\n\t");
    assert_eq!((b.cursor_line(), b.cursor_col()), (1, 1));
}

#[test]
fn arrows_home_end_move_the_cursor() {
    let mut b = Buffer::new_with_text("abc\nde");
    handle_key(&mut b, EditKey::ArrowRight, false, false);
    handle_key(&mut b, EditKey::ArrowDown, false, false);
    assert_eq!((b.cursor_line(), b.cursor_col()), (1, 1));
    handle_key(&mut b, EditKey::End, false, false);
    assert_eq!(b.cursor_col(), 2);
    handle_key(&mut b, EditKey::ArrowUp, false, false);
    handle_key(&mut b, EditKey::ArrowLeft, false, false);
    assert_eq!((b.cursor_line(), b.cursor_col()), (0, 1));
    handle_key(&mut b, EditKey::Home, false, false);
    assert_eq!(b.cursor_col(), 0);
    handle_key(&mut b, EditKey::Other, false, false);
    assert!(!b.is_dirty());
}

#[test]
fn backspace_and_delete_keys_edit() {
    let mut b = Buffer::new_with_text("abc");
    handle_key(&mut b, EditKey::ArrowRight, false, false);
    handle_key(&mut b, EditKey::Delete, false, false);
    assert_eq!(b.text(), "ac");
    handle_key(&mut b, EditKey::Backspace, false, false);
    assert_eq!(b.text(), "c");
    assert_eq!(b.cursor_col(), 0);
    assert!(b.is_dirty());
}
