//! The text store: `ropey::Rope`, with its contents named as a character
//! sequence. Line breaks are `'\n'` alone (ropey built without its
//! `cr_lines` and `unicode_lines` features).
use vstd::prelude::*;
use crate::text::{line_start, newlines};

verus! {

#[verifier::external_type_specification]
#[verifier::external_body]
pub struct ExRope(ropey::Rope);

/// The characters that a rope holds, in order.
pub uninterp spec fn rope_chars(r: ropey::Rope) -> Seq<char>;

/// Relies on ropey's `Rope::new`: an empty rope.
pub assume_specification[ ropey::Rope::new ]() -> (r: ropey::Rope)
    ensures
        rope_chars(r) == Seq::<char>::empty(),
;

/// Relies on ropey's `Rope::from_str`: a rope holding the characters of `text`.
pub assume_specification[ ropey::Rope::from_str ](text: &str) -> (r: ropey::Rope)
    ensures
        rope_chars(r) == text@,
;

/// Relies on the `Clone` of ropey's `Rope`: a rope holding the same characters.
pub assume_specification[ <ropey::Rope as Clone>::clone ](r: &ropey::Rope) -> (c: ropey::Rope)
    ensures
        rope_chars(c) == rope_chars(*r),
;

/// Relies on ropey's `Rope::len_chars`: the number of characters held.
pub assume_specification[ ropey::Rope::len_chars ](r: &ropey::Rope) -> (n: usize)
    ensures
        n == rope_chars(*r).len(),
;

/// Relies on ropey's `Rope::len_lines`: one more than the number of line breaks.
pub assume_specification[ ropey::Rope::len_lines ](r: &ropey::Rope) -> (n: usize)
    ensures
        n == newlines(rope_chars(*r)) + 1,
;

/// Relies on ropey's `Rope::line_to_char`: the char index where line `line_idx`
/// starts; one past the last line gives the length. Panics beyond that.
pub assume_specification[ ropey::Rope::line_to_char ](r: &ropey::Rope, line_idx: usize) -> (n: usize)
    requires
        line_idx <= newlines(rope_chars(*r)) + 1,
    ensures
        n == line_start(rope_chars(*r), line_idx as int),
;

/// Relies on ropey's `Rope::char`: the character at `char_idx`. Panics out of bounds.
pub assume_specification[ ropey::Rope::char ](r: &ropey::Rope, char_idx: usize) -> (c: char)
    requires
        char_idx < rope_chars(*r).len(),
    ensures
        c == rope_chars(*r)[char_idx as int],
;

/// Relies on ropey's `Rope::insert_char`: `ch` inserted before index `char_idx`.
/// Panics when `char_idx` is past the end.
pub assume_specification[ ropey::Rope::insert_char ](r: &mut ropey::Rope, char_idx: usize, ch: char)
    requires
        char_idx <= rope_chars(*old(r)).len(),
    ensures
        rope_chars(*final(r)) == rope_chars(*old(r)).insert(char_idx as int, ch),
;

/// Relies on ropey's `Rope::insert`: the characters of `text` inserted before
/// index `char_idx`. Panics when `char_idx` is past the end.
pub assume_specification[ ropey::Rope::insert ](r: &mut ropey::Rope, char_idx: usize, text: &str)
    requires
        char_idx <= rope_chars(*old(r)).len(),
    ensures
        rope_chars(*final(r)) == rope_chars(*old(r)).subrange(0, char_idx as int) + text@
            + rope_chars(*old(r)).subrange(char_idx as int, rope_chars(*old(r)).len() as int),
;

/// Relies on ropey's `Rope::remove`: the characters of `start..end` removed.
/// Panics when `start > end` or `end` is past the end.
#[verifier::external_body]
pub(crate) fn remove_range(r: &mut ropey::Rope, start: usize, end: usize)
    requires
        start <= end <= rope_chars(*old(r)).len(),
    ensures
        rope_chars(*final(r)) == rope_chars(*old(r)).subrange(0, start as int)
            + rope_chars(*old(r)).subrange(end as int, rope_chars(*old(r)).len() as int),
{
    r.remove(start..end)
}

/// Relies on ropey's `Rope::slice`, and on the `Display` of the slice for its
/// text: the characters of `start..end`. Panics when `start > end` or `end` is
/// past the end.
#[verifier::external_body]
pub(crate) fn slice_text(r: &ropey::Rope, start: usize, end: usize) -> (t: String)
    requires
        start <= end <= rope_chars(*r).len(),
    ensures
        t@ == rope_chars(*r).subrange(start as int, end as int),
{
    r.slice(start..end).to_string()
}

/// Relies on the `Display` of ropey's `Rope`: all of its characters as a string.
#[verifier::external_body]
pub(crate) fn full_text(r: &ropey::Rope) -> (t: String)
    ensures
        t@ == rope_chars(*r),
{
    r.to_string()
}

} // verus!
