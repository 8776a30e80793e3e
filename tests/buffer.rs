use stringr::Buffer;

fn buffer_at(text: &str, line: usize, col: usize) -> Buffer {
    let mut b = Buffer::new_with_text(text);
    for _ in 0..line {
        b.move_down();
    }
    for _ in 0..col {
        b.move_right();
    }
    assert_eq!((b.cursor_line(), b.cursor_col()), (line, col));
    b
}

#[test]
fn insert_str_two_lines_into_empty_buffer() {
    let mut b = Buffer::new();
    b.insert_str("ab\ncd");
    assert_eq!((b.cursor_line(), b.cursor_col()), (1, 2));
    assert_eq!(b.line_count(), 2);
    assert_eq!(b.lines(), vec!["ab".to_string(), "cd".to_string()]);
    assert!(b.is_dirty());
}

#[test]
fn delete_backward_twice_empties_buffer() {
    let mut b = buffer_at("ab", 0, 2);
    b.delete_backward();
    b.delete_backward();
    assert!(b.is_empty());
    assert_eq!(b.text(), "");
    assert_eq!((b.cursor_line(), b.cursor_col()), (0, 0));
    assert!(b.is_dirty());
}

#[test]
fn move_right_wraps_to_next_line() {
    let mut b = buffer_at("ab\nc", 0, 2);
    b.move_right();
    assert_eq!((b.cursor_line(), b.cursor_col()), (1, 0));
}

#[test]
fn move_right_at_end_of_last_line_stays() {
    let mut b = buffer_at("ab\nc", 1, 1);
    b.move_right();
    assert_eq!((b.cursor_line(), b.cursor_col()), (1, 1));
}

#[test]
fn insert_char_then_delete_backward_restores() {
    let mut b = buffer_at("hello\nworld", 1, 3);
    b.insert_char('x');
    assert_eq!(b.text(), "hello\nworxld");
    assert_eq!((b.cursor_line(), b.cursor_col()), (1, 4));
    b.delete_backward();
    assert_eq!(b.text(), "hello\nworld");
    assert_eq!((b.cursor_line(), b.cursor_col()), (1, 3));
}

#[test]
fn newline_then_delete_backward_restores_at_line_end() {
    let mut b = buffer_at("ab\ncd", 0, 2);
    b.insert_char('\n');
    assert_eq!(b.text(), "ab\n\ncd");
    assert_eq!((b.cursor_line(), b.cursor_col()), (1, 0));
    assert_eq!(b.line_count(), 3);
    b.delete_backward();
    assert_eq!(b.text(), "ab\ncd");
    assert_eq!((b.cursor_line(), b.cursor_col()), (0, 2));
}

#[test]
fn delete_backward_over_newline_goes_to_end_of_merged_line() {
    let mut b = buffer_at("ab\ncd", 1, 0);
    b.delete_backward();
    assert_eq!(b.text(), "abcd");
    assert_eq!((b.cursor_line(), b.cursor_col()), (0, 4));
}

#[test]
fn move_left_char_count_times_reaches_origin() {
    let mut b = buffer_at("ab\n\ncde\nf", 2, 2);
    for _ in 0..b.char_count() {
        b.move_left();
    }
    assert_eq!((b.cursor_line(), b.cursor_col()), (0, 0));
}

#[test]
fn move_left_wraps_to_end_of_previous_line() {
    let mut b = buffer_at("abc\nd", 1, 0);
    b.move_left();
    assert_eq!((b.cursor_line(), b.cursor_col()), (0, 3));
}

#[test]
fn delete_forward_at_end_is_noop() {
    let mut b = buffer_at("ab\nc", 1, 1);
    b.delete_forward();
    assert_eq!(b.text(), "ab\nc");
    assert_eq!((b.cursor_line(), b.cursor_col()), (1, 1));
    assert!(!b.is_dirty());
}

#[test]
fn delete_forward_removes_char_at_cursor() {
    let mut b = buffer_at("ab\nc", 0, 2);
    b.delete_forward();
    assert_eq!(b.text(), "abc");
    assert_eq!((b.cursor_line(), b.cursor_col()), (0, 2));
    assert!(b.is_dirty());
}

#[test]
fn delete_backward_at_start_is_noop() {
    let mut b = Buffer::new_with_text("ab");
    b.delete_backward();
    assert_eq!(b.text(), "ab");
    assert!(!b.is_dirty());
}

#[test]
fn move_up_and_down_clamp_column() {
    let mut b = buffer_at("abcd\nx\nabc", 0, 4);
    b.move_down();
    assert_eq!((b.cursor_line(), b.cursor_col()), (1, 1));
    b.move_down();
    assert_eq!((b.cursor_line(), b.cursor_col()), (2, 1));
    b.move_down();
    assert_eq!((b.cursor_line(), b.cursor_col()), (2, 1));
    b.move_to_line_end();
    assert_eq!(b.cursor_col(), 3);
    b.move_up();
    assert_eq!((b.cursor_line(), b.cursor_col()), (1, 1));
    b.move_up();
    b.move_up();
    assert_eq!((b.cursor_line(), b.cursor_col()), (0, 1));
    b.move_to_line_start();
    assert_eq!(b.cursor_col(), 0);
}

#[test]
fn columns_count_characters_not_bytes() {
    let mut b = Buffer::new_with_text("héllo\n日本");
    assert_eq!(b.char_count(), 8);
    b.move_to_line_end();
    assert_eq!(b.cursor_col(), 5);
    b.move_down();
    assert_eq!(b.cursor_col(), 2);
    b.insert_char('語');
    assert_eq!(b.lines(), vec!["héllo".to_string(), "日本語".to_string()]);
}

#[test]
fn empty_buffer_metrics() {
    let b = Buffer::new();
    assert_eq!(b.line_count(), 0);
    assert_eq!(b.char_count(), 0);
    assert!(b.is_empty());
    assert!(!b.is_dirty());
    assert!(b.lines().is_empty());
    assert!(b.path().is_none());
    let d = Buffer::default();
    assert!(d.is_empty());
}

#[test]
fn trailing_newline_gives_empty_last_line() {
    let b = Buffer::new_with_text("ab\n");
    assert_eq!(b.line_count(), 2);
    assert_eq!(b.lines(), vec!["ab".to_string(), String::new()]);
}

#[test]
fn insert_str_in_middle_of_line() {
    let mut b = buffer_at("hello world", 0, 5);
    b.insert_str(",\nbig");
    assert_eq!(b.text(), "hello,\nbig world");
    assert_eq!((b.cursor_line(), b.cursor_col()), (1, 3));
}

#[test]
fn clear_keeps_path_and_resets_the_rest() {
    let mut b = Buffer::new_with_text("abc");
    b.set_path(std::path::PathBuf::from("/tmp/notes.txt"));
    b.move_right();
    b.insert_char('z');
    b.clear();
    assert!(b.is_empty());
    assert!(!b.is_dirty());
    assert_eq!((b.cursor_line(), b.cursor_col()), (0, 0));
    assert_eq!(b.path(), Some(&std::path::PathBuf::from("/tmp/notes.txt")));
}

#[test]
fn mark_saved_clears_dirty() {
    let mut b = Buffer::new();
    b.insert_char('a');
    assert!(b.is_dirty());
    b.mark_saved();
    assert!(!b.is_dirty());
    assert_eq!(b.text(), "a");
}

#[test]
fn clone_keeps_text_and_cursor() {
    let b = buffer_at("ab\ncd", 1, 1);
    let c = b.clone();
    assert_eq!(c.text(), "ab\ncd");
    assert_eq!((c.cursor_line(), c.cursor_col()), (1, 1));
}
