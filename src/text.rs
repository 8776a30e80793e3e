//! The mathematical model of buffer contents: a sequence of characters split
//! into lines by `'\n'`, and the lemmas that relate (line, column) positions to
//! absolute character offsets.
use vstd::prelude::*;

verus! {

/// Number of newline characters in `s`.
pub open spec fn newlines(s: Seq<char>) -> nat
    decreases s.len(),
{
    if s.len() == 0 {
        0
    } else {
        newlines(s.drop_last()) + if s.last() == '\n' {
            1nat
        } else {
            0nat
        }
    }
}

/// Number of characters after the last newline of `s` (all of `s` if it has none).
pub open spec fn tail_len(s: Seq<char>) -> nat
    decreases s.len(),
{
    if s.len() == 0 {
        0
    } else if s.last() == '\n' {
        0
    } else {
        tail_len(s.drop_last()) + 1
    }
}

/// Offset of the first character of line `l`: just past the `l`-th newline.
/// Line `newlines(s) + 1` and beyond start at the end of the text.
pub open spec fn line_start(s: Seq<char>, l: int) -> int
    decreases s.len(),
{
    if s.len() == 0 {
        0
    } else if l > newlines(s) {
        s.len() as int
    } else if l == newlines(s) {
        s.len() - tail_len(s)
    } else {
        line_start(s.drop_last(), l)
    }
}

/// Number of characters of line `l`, not counting its terminating newline;
/// 0 for a line that does not exist.
pub open spec fn line_len(s: Seq<char>, l: int) -> int {
    if 0 <= l < newlines(s) {
        line_start(s, l + 1) - line_start(s, l) - 1
    } else if l == newlines(s) {
        s.len() - line_start(s, l)
    } else {
        0
    }
}

/// The characters of line `l`, without its terminating newline.
pub open spec fn line_text(s: Seq<char>, l: int) -> Seq<char> {
    s.subrange(line_start(s, l), line_start(s, l) + line_len(s, l))
}

/// Number of lines of stored text: none for an empty text, otherwise one more
/// than the number of newlines.
pub open spec fn line_total(s: Seq<char>) -> nat {
    if s.len() == 0 {
        0
    } else {
        newlines(s) + 1
    }
}

/// `(line, col)` names a place in `s`: an existing line, and a column no
/// further than that line's end.
pub open spec fn valid_pos(s: Seq<char>, line: int, col: int) -> bool {
    &&& 0 <= line <= newlines(s)
    &&& 0 <= col <= line_len(s, line)
}

/// Absolute character offset of the place `(line, col)`.
pub open spec fn offset_of(s: Seq<char>, line: int, col: int) -> int {
    line_start(s, line) + col
}

/// Line of the place at absolute offset `o`.
pub open spec fn line_at(s: Seq<char>, o: int) -> int {
    newlines(s.subrange(0, o)) as int
}

/// Column of the place at absolute offset `o`.
pub open spec fn col_at(s: Seq<char>, o: int) -> int {
    tail_len(s.subrange(0, o)) as int
}

pub proof fn lemma_counts_bounded(s: Seq<char>)
    ensures
        newlines(s) <= s.len(),
        tail_len(s) <= s.len(),
    decreases s.len(),
{
    if s.len() > 0 {
        lemma_counts_bounded(s.drop_last());
    }
}

/// Dropping the last character keeps the start of every line that still exists.
proof fn lemma_line_start_drop_last(s: Seq<char>, l: int)
    requires
        s.len() > 0,
        l <= newlines(s.drop_last()),
    ensures
        line_start(s, l) == line_start(s.drop_last(), l),
{
    let d = s.drop_last();
    if l == newlines(s) {
        assert(s.last() != '\n');
        if d.len() == 0 {
            assert(tail_len(d) == 0);
        }
    }
}

pub proof fn lemma_line_start_bounded(s: Seq<char>, l: int)
    ensures
        0 <= line_start(s, l) <= s.len(),
    decreases s.len(),
{
    lemma_counts_bounded(s);
    if s.len() > 0 && l < newlines(s) {
        lemma_line_start_bounded(s.drop_last(), l);
    }
}

/// An offset determines a valid place, and that place leads back to the offset.
pub proof fn lemma_place_of_offset(s: Seq<char>, o: int)
    requires
        0 <= o <= s.len(),
    ensures
        valid_pos(s, line_at(s, o), col_at(s, o)),
        offset_of(s, line_at(s, o), col_at(s, o)) == o,
    decreases s.len(),
{
    let l = line_at(s, o);
    let c = col_at(s, o);
    lemma_line_start_bounded(s, l);
    lemma_line_start_bounded(s, l + 1);
    if o == s.len() {
        assert(s.subrange(0, o) =~= s);
        lemma_counts_bounded(s);
    } else {
        let d = s.drop_last();
        assert(d.subrange(0, o) =~= s.subrange(0, o));
        lemma_place_of_offset(d, o);
        lemma_line_start_drop_last(s, l);
        if l < newlines(d) {
            lemma_line_start_drop_last(s, l + 1);
        }
    }
}

/// A valid place lies at an offset whose prefix gives back its line and column.
pub proof fn lemma_offset_of_place(s: Seq<char>, line: int, col: int)
    requires
        valid_pos(s, line, col),
    ensures
        0 <= offset_of(s, line, col) <= s.len(),
        line_at(s, offset_of(s, line, col)) == line,
        col_at(s, offset_of(s, line, col)) == col,
    decreases s.len(),
{
    let o = offset_of(s, line, col);
    lemma_line_start_bounded(s, line);
    lemma_line_start_bounded(s, line + 1);
    lemma_counts_bounded(s);
    if s.len() == 0 {
        assert(s.subrange(0, 0) =~= s);
    } else if o == s.len() {
        assert(s.subrange(0, o) =~= s);
    } else {
        let d = s.drop_last();
        assert(line <= newlines(d));
        lemma_line_start_drop_last(s, line);
        if line < newlines(d) {
            lemma_line_start_drop_last(s, line + 1);
        }
        lemma_offset_of_place(d, line, col);
        assert(d.subrange(0, o) =~= s.subrange(0, o));
    }
}

/// Consecutive lines: line `l + 1` starts just past the end of line `l` and its newline.
pub proof fn lemma_line_len_nonneg(s: Seq<char>, l: int)
    ensures
        line_len(s, l) >= 0,
        0 <= l < newlines(s) ==> line_start(s, l + 1) <= s.len(),
        0 <= l <= newlines(s) ==> line_start(s, l) + line_len(s, l) <= s.len(),
    decreases s.len(),
{
    lemma_line_start_bounded(s, l);
    lemma_line_start_bounded(s, l + 1);
    if 0 <= l < newlines(s) {
        let d = s.drop_last();
        if l + 1 <= newlines(d) {
            lemma_line_start_drop_last(s, l);
            lemma_line_start_drop_last(s, l + 1);
            lemma_line_len_nonneg(d, l);
        } else {
            lemma_line_start_drop_last(s, l);
            lemma_line_start_bounded(d, l);
        }
    }
}

/// Appending one character updates the newline count and the tail length by
/// the cursor rule.
pub proof fn lemma_push_counts(p: Seq<char>, ch: char)
    ensures
        newlines(p.push(ch)) == newlines(p) + if ch == '\n' {
            1nat
        } else {
            0nat
        },
        tail_len(p.push(ch)) == if ch == '\n' {
            0
        } else {
            tail_len(p) + 1
        },
{
    assert(p.push(ch).drop_last() =~= p);
}

} // verus!
