//! What each buffer operation does, stated over the text and the cursor place,
//! and the laws that relate the operations.
use vstd::prelude::*;
use crate::text::{
    col_at, lemma_line_len_nonneg, lemma_offset_of_place, lemma_place_of_offset, lemma_push_counts,
    line_at, line_len, newlines, offset_of, tail_len, valid_pos,
};

verus! {

/// The part of a buffer that the editing operations act on.
pub struct TextState {
    pub text: Seq<char>,
    pub line: int,
    pub col: int,
}

/// The cursor names a place in the text.
pub open spec fn state_valid(st: TextState) -> bool {
    valid_pos(st.text, st.line, st.col)
}

/// Absolute character offset of the cursor.
pub open spec fn cursor_offset(st: TextState) -> int {
    offset_of(st.text, st.line, st.col)
}

/// The cursor rule for one typed character: a newline opens the next line,
/// anything else moves one column right.
pub open spec fn step_place(line: int, col: int, ch: char) -> (int, int) {
    if ch == '\n' {
        (line + 1, 0)
    } else {
        (line, col + 1)
    }
}

/// The cursor rule replayed over every character of `t`, in order.
pub open spec fn advance(line: int, col: int, t: Seq<char>) -> (int, int)
    decreases t.len(),
{
    if t.len() == 0 {
        (line, col)
    } else {
        let p = advance(line, col, t.drop_last());
        step_place(p.0, p.1, t.last())
    }
}

pub open spec fn insert_char_state(st: TextState, ch: char) -> TextState {
    let p = step_place(st.line, st.col, ch);
    TextState { text: st.text.insert(cursor_offset(st), ch), line: p.0, col: p.1 }
}

pub open spec fn insert_str_state(st: TextState, t: Seq<char>) -> TextState {
    let o = cursor_offset(st);
    let p = advance(st.line, st.col, t);
    TextState {
        text: st.text.subrange(0, o) + t + st.text.subrange(o, st.text.len() as int),
        line: p.0,
        col: p.1,
    }
}

/// Backspace: remove the character before the cursor. Removing a newline
/// puts the cursor at the end of the merged line.
pub open spec fn delete_backward_state(st: TextState) -> TextState {
    let o = cursor_offset(st);
    if o <= 0 {
        st
    } else {
        let t = st.text.remove(o - 1);
        if st.text[o - 1] == '\n' {
            TextState { text: t, line: st.line - 1, col: line_len(t, st.line - 1) }
        } else {
            TextState { text: t, line: st.line, col: st.col - 1 }
        }
    }
}

/// Delete key: remove the character at the cursor, which stays in place.
pub open spec fn delete_forward_state(st: TextState) -> TextState {
    let o = cursor_offset(st);
    if o >= st.text.len() {
        st
    } else {
        TextState { text: st.text.remove(o), ..st }
    }
}

pub open spec fn min_int(a: int, b: int) -> int {
    if a <= b {
        a
    } else {
        b
    }
}

pub open spec fn move_up_state(st: TextState) -> TextState {
    if st.line > 0 {
        TextState { line: st.line - 1, col: min_int(st.col, line_len(st.text, st.line - 1)), ..st }
    } else {
        st
    }
}

pub open spec fn move_down_state(st: TextState) -> TextState {
    if st.line < newlines(st.text) {
        TextState { line: st.line + 1, col: min_int(st.col, line_len(st.text, st.line + 1)), ..st }
    } else {
        st
    }
}

pub open spec fn move_left_state(st: TextState) -> TextState {
    if st.col > 0 {
        TextState { col: st.col - 1, ..st }
    } else if st.line > 0 {
        TextState { line: st.line - 1, col: line_len(st.text, st.line - 1), ..st }
    } else {
        st
    }
}

pub open spec fn move_right_state(st: TextState) -> TextState {
    if st.col < line_len(st.text, st.line) {
        TextState { col: st.col + 1, ..st }
    } else if st.line < newlines(st.text) {
        TextState { line: st.line + 1, col: 0, ..st }
    } else {
        st
    }
}

pub open spec fn line_start_state(st: TextState) -> TextState {
    TextState { col: 0, ..st }
}

pub open spec fn line_end_state(st: TextState) -> TextState {
    TextState { col: line_len(st.text, st.line), ..st }
}

/// `move_left_state` applied `n` times.
pub open spec fn move_left_times(st: TextState, n: nat) -> TextState
    decreases n,
{
    if n == 0 {
        st
    } else {
        move_left_times(move_left_state(st), (n - 1) as nat)
    }
}

/// Replaying the cursor rule over `t` from the end of `a` gives the place at
/// the end of `a + t`.
pub proof fn lemma_advance_concat(a: Seq<char>, t: Seq<char>)
    ensures
        advance(newlines(a) as int, tail_len(a) as int, t) == (
            newlines(a + t) as int,
            tail_len(a + t) as int,
        ),
    decreases t.len(),
{
    if t.len() == 0 {
        assert(a + t =~= a);
    } else {
        lemma_advance_concat(a, t.drop_last());
        assert((a + t.drop_last()).push(t.last()) =~= a + t);
        lemma_push_counts(a + t.drop_last(), t.last());
    }
}

pub proof fn lemma_insert_char_valid(st: TextState, ch: char)
    requires
        state_valid(st),
    ensures
        state_valid(insert_char_state(st, ch)),
        cursor_offset(insert_char_state(st, ch)) == cursor_offset(st) + 1,
{
    let s = st.text;
    let o = cursor_offset(st);
    lemma_offset_of_place(s, st.line, st.col);
    let s2 = s.insert(o, ch);
    assert(s2.subrange(0, o + 1) =~= s.subrange(0, o).push(ch));
    lemma_push_counts(s.subrange(0, o), ch);
    lemma_place_of_offset(s2, o + 1);
}

pub proof fn lemma_insert_str_valid(st: TextState, t: Seq<char>)
    requires
        state_valid(st),
    ensures
        state_valid(insert_str_state(st, t)),
        cursor_offset(insert_str_state(st, t)) == cursor_offset(st) + t.len(),
        insert_str_state(st, t).line == line_at(insert_str_state(st, t).text, cursor_offset(st) + t.len()),
        insert_str_state(st, t).col == col_at(insert_str_state(st, t).text, cursor_offset(st) + t.len()),
{
    let s = st.text;
    let o = cursor_offset(st);
    lemma_offset_of_place(s, st.line, st.col);
    let s2 = insert_str_state(st, t).text;
    assert(s2.subrange(0, o + t.len()) =~= s.subrange(0, o) + t);
    lemma_advance_concat(s.subrange(0, o), t);
    lemma_place_of_offset(s2, o + t.len());
}

pub proof fn lemma_delete_backward_valid(st: TextState)
    requires
        state_valid(st),
    ensures
        state_valid(delete_backward_state(st)),
        cursor_offset(st) > 0 && st.text[cursor_offset(st) - 1] == '\n' ==> st.line >= 1,
        cursor_offset(st) > 0 && st.text[cursor_offset(st) - 1] != '\n' ==> st.col >= 1,
{
    let s = st.text;
    let o = cursor_offset(st);
    lemma_offset_of_place(s, st.line, st.col);
    if o > 0 {
        let s2 = s.remove(o - 1);
        assert(s.subrange(0, o) =~= s.subrange(0, o - 1).push(s[o - 1]));
        lemma_push_counts(s.subrange(0, o - 1), s[o - 1]);
        assert(s2.subrange(0, o - 1) =~= s.subrange(0, o - 1));
        lemma_place_of_offset(s2, o - 1);
        lemma_line_len_nonneg(s2, st.line - 1);
    }
}

pub proof fn lemma_delete_forward_valid(st: TextState)
    requires
        state_valid(st),
    ensures
        state_valid(delete_forward_state(st)),
{
    let s = st.text;
    let o = cursor_offset(st);
    lemma_offset_of_place(s, st.line, st.col);
    if o < s.len() {
        let s2 = s.remove(o);
        assert(s2.subrange(0, o) =~= s.subrange(0, o));
        lemma_place_of_offset(s2, o);
    }
}

/// Every navigation step keeps the cursor on an existing line and within it.
pub proof fn lemma_navigation_keeps_cursor_valid(st: TextState)
    requires
        state_valid(st),
    ensures
        state_valid(move_up_state(st)),
        state_valid(move_down_state(st)),
        state_valid(move_left_state(st)),
        state_valid(move_right_state(st)),
        state_valid(line_start_state(st)),
        state_valid(line_end_state(st)),
{
    lemma_line_len_nonneg(st.text, st.line);
    lemma_line_len_nonneg(st.text, st.line - 1);
    lemma_line_len_nonneg(st.text, st.line + 1);
}

/// Typing a character other than a newline and then pressing backspace gives
/// back the text and the cursor place.
pub proof fn lemma_insert_then_delete_backward(st: TextState, ch: char)
    requires
        state_valid(st),
        ch != '\n',
    ensures
        delete_backward_state(insert_char_state(st, ch)) == st,
{
    let o = cursor_offset(st);
    lemma_insert_char_valid(st, ch);
    lemma_offset_of_place(st.text, st.line, st.col);
    assert(insert_char_state(st, ch).text.remove(o) =~= st.text);
}

/// Splitting a line with a newline and then pressing backspace merges it
/// again, giving back the text; the cursor returns to its place when it stood
/// at the end of its line, since backspace over a newline puts the cursor at
/// the end of the merged line.
pub proof fn lemma_newline_then_delete_backward(st: TextState)
    requires
        state_valid(st),
        st.col == line_len(st.text, st.line),
    ensures
        delete_backward_state(insert_char_state(st, '\n')) == st,
{
    let o = cursor_offset(st);
    lemma_insert_char_valid(st, '\n');
    lemma_offset_of_place(st.text, st.line, st.col);
    assert(insert_char_state(st, '\n').text.remove(o) =~= st.text);
}

proof fn lemma_move_left_offset(st: TextState)
    requires
        state_valid(st),
    ensures
        cursor_offset(st) > 0 ==> cursor_offset(move_left_state(st)) == cursor_offset(st) - 1,
        cursor_offset(st) == 0 ==> st.line == 0 && st.col == 0,
{
    lemma_offset_of_place(st.text, st.line, st.col);
    if cursor_offset(st) == 0 {
        assert(st.text.subrange(0, 0) =~= Seq::<char>::empty());
    }
}

/// Moving left as many times as the text has characters always reaches (0, 0).
pub proof fn lemma_move_left_reaches_origin(st: TextState)
    requires
        state_valid(st),
    ensures
        move_left_times(st, st.text.len()).line == 0,
        move_left_times(st, st.text.len()).col == 0,
{
    lemma_offset_of_place(st.text, st.line, st.col);
    lemma_move_left_times(st, st.text.len());
}

proof fn lemma_move_left_times(st: TextState, n: nat)
    requires
        state_valid(st),
        cursor_offset(st) <= n,
    ensures
        move_left_times(st, n).line == 0,
        move_left_times(st, n).col == 0,
    decreases n,
{
    lemma_offset_of_place(st.text, st.line, st.col);
    lemma_move_left_offset(st);
    lemma_navigation_keeps_cursor_valid(st);
    if n > 0 {
        lemma_move_left_times(move_left_state(st), (n - 1) as nat);
    }
}

/// At the end of the text the delete key changes nothing.
pub proof fn lemma_delete_forward_at_end(st: TextState)
    requires
        state_valid(st),
        cursor_offset(st) >= st.text.len(),
    ensures
        delete_forward_state(st) == st,
{
}

} // verus!
