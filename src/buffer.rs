//! The text buffer: a rope of characters, a cursor kept on a valid place, a
//! modified flag and an optional file path.
use vstd::prelude::*;
use std::path::PathBuf;
use crate::cursor::Cursor;
use crate::edit::{
    TextState, cursor_offset, delete_backward_state, delete_forward_state, insert_char_state,
    insert_str_state, lemma_delete_backward_valid, lemma_delete_forward_valid,
    lemma_insert_char_valid, lemma_insert_str_valid, lemma_navigation_keeps_cursor_valid,
    line_end_state, line_start_state, move_down_state, move_left_state, move_right_state,
    move_up_state, state_valid,
};
use crate::rope::{full_text, remove_range, rope_chars, slice_text};
use crate::text::{
    col_at, lemma_counts_bounded, lemma_line_len_nonneg, lemma_line_start_bounded,
    lemma_offset_of_place, lemma_place_of_offset, lemma_push_counts, line_at, line_len, line_text,
    line_total,
};

verus! {

#[verifier::external_type_specification]
#[verifier::external_body]
pub struct ExPathBuf(std::path::PathBuf);

/// Text buffer
#[derive(Debug, Clone)]
pub struct Buffer {
    rope: ropey::Rope,
    cursor: Cursor,
    dirty: bool,
    path: Option<PathBuf>,
}

impl Buffer {
    /// The characters stored.
    pub closed spec fn chars(&self) -> Seq<char> {
        rope_chars(self.rope)
    }

    /// The cursor.
    pub closed spec fn cursor(&self) -> Cursor {
        self.cursor
    }

    /// Whether there are unsaved changes.
    pub closed spec fn modified(&self) -> bool {
        self.dirty
    }

    /// The associated file path.
    pub closed spec fn file_path(&self) -> Option<PathBuf> {
        self.path
    }

    /// The text and the cursor place.
    pub open spec fn state(&self) -> TextState {
        TextState {
            text: self.chars(),
            line: self.cursor().position.line as int,
            col: self.cursor().position.col as int,
        }
    }

    /// The cursor stands on an existing line, no further than its end, and
    /// every character offset fits in a `usize`.
    pub open spec fn wf(&self) -> bool {
        &&& state_valid(self.state())
        &&& self.chars().len() <= usize::MAX
    }

    /// Everything but the text and the cursor position is as in `other`.
    pub open spec fn same_but_text_and_place(&self, other: &Buffer) -> bool {
        &&& self.cursor().anchor == other.cursor().anchor
        &&& self.modified() == other.modified()
        &&& self.file_path() == other.file_path()
    }

    /// An edit: `self` has the text and place of `st`, is marked modified,
    /// and keeps the selection anchor and path of `other`.
    pub open spec fn edited_from(&self, other: &Buffer, st: TextState) -> bool {
        &&& self.state() == st
        &&& self.wf()
        &&& self.modified()
        &&& self.cursor().anchor == other.cursor().anchor
        &&& self.file_path() == other.file_path()
    }

    /// A cursor move: `self` has the place of `st` and otherwise equals `other`.
    pub open spec fn moved_from(&self, other: &Buffer, st: TextState) -> bool {
        &&& self.state() == st
        &&& self.wf()
        &&& self.same_but_text_and_place(other)
    }

    /// Create new empty buffer
    pub fn new() -> (r: Self)
        ensures
            r.chars().len() == 0,
            r.state().line == 0,
            r.state().col == 0,
            r.cursor().anchor is None,
            !r.modified(),
            r.file_path() is None,
            r.wf(),
    {
        let r = Buffer { rope: ropey::Rope::new(), cursor: Cursor::new(), dirty: false, path: None };
        proof {
            lemma_place_of_offset(r.chars(), 0);
            assert(r.chars().subrange(0, 0) =~= Seq::<char>::empty());
        }
        r
    }

    /// Create a buffer holding `text`, cursor at the start
    pub fn new_with_text(text: &str) -> (r: Self)
        ensures
            r.chars() == text@,
            r.state().line == 0,
            r.state().col == 0,
            r.cursor().anchor is None,
            !r.modified(),
            r.file_path() is None,
            r.wf(),
    {
        let rope = ropey::Rope::from_str(text);
        // the length is a usize, so every offset into the text fits one
        let _len: usize = rope.len_chars();
        let r = Buffer { rope, cursor: Cursor::new(), dirty: false, path: None };
        proof {
            lemma_place_of_offset(r.chars(), 0);
            assert(r.chars().subrange(0, 0) =~= Seq::<char>::empty());
        }
        r
    }

    /// Get current cursor line
    pub fn cursor_line(&self) -> (r: usize)
        ensures
            r == self.state().line,
    {
        self.cursor.position.line
    }

    /// Get current cursor column
    pub fn cursor_col(&self) -> (r: usize)
        ensures
            r == self.state().col,
    {
        self.cursor.position.col
    }

    /// Number of lines of stored text (0 when empty)
    pub fn line_count(&self) -> (r: usize)
        ensures
            r == line_total(self.chars()),
    {
        if self.rope.len_chars() == 0 {
            0
        } else {
            self.rope.len_lines()
        }
    }

    /// Total character count
    pub fn char_count(&self) -> (r: usize)
        ensures
            r == self.chars().len(),
    {
        self.rope.len_chars()
    }

    /// Absolute character offset of the cursor
    fn cursor_char_idx(&self) -> (r: usize)
        requires
            self.wf(),
        ensures
            r == cursor_offset(self.state()),
            r <= self.chars().len(),
    {
        proof {
            lemma_offset_of_place(self.chars(), self.state().line, self.state().col);
        }
        let line_start = self.rope.line_to_char(self.cursor.position.line);
        line_start + self.cursor.position.col
    }

    /// Length of a line in characters, excluding its newline; 0 past the last line
    fn line_len(&self, line_idx: usize) -> (r: usize)
        ensures
            r == line_len(self.chars(), line_idx as int),
    {
        let n = self.rope.len_lines();
        if line_idx >= n {
            return 0;
        }
        proof {
            lemma_line_len_nonneg(self.chars(), line_idx as int);
        }
        let start = self.rope.line_to_char(line_idx);
        let end = self.rope.line_to_char(line_idx + 1);
        if line_idx + 1 < n {
            end - start - 1
        } else {
            end - start
        }
    }

    /// Insert a character at the cursor and move past it
    pub fn insert_char(&mut self, ch: char)
        requires
            old(self).wf(),
        ensures
            final(self).edited_from(old(self), insert_char_state(old(self).state(), ch)),
    {
        let ghost st = self.state();
        let idx = self.cursor_char_idx();
        proof {
            lemma_insert_char_valid(st, ch);
        }
        self.rope.insert_char(idx, ch);
        self.dirty = true;
        // the new length is a usize, so every offset into the text still fits one
        let _len: usize = self.rope.len_chars();
        proof {
            let s2 = self.chars();
            lemma_counts_bounded(s2);
            lemma_line_len_nonneg(s2, st.line);
            lemma_line_start_bounded(s2, st.line);
        }
        if ch == '\n' {
            self.cursor.position.line = self.cursor.position.line + 1;
            self.cursor.position.col = 0;
        } else {
            self.cursor.position.col = self.cursor.position.col + 1;
        }
    }

    /// Insert a string at the cursor in one step, then advance the cursor over
    /// it by the same rule as `insert_char`
    pub fn insert_str(&mut self, text: &str)
        requires
            old(self).wf(),
        ensures
            final(self).edited_from(old(self), insert_str_state(old(self).state(), text@)),
    {
        let ghost st = self.state();
        let idx = self.cursor_char_idx();
        let before = self.rope.len_chars();
        self.rope.insert(idx, text);
        self.dirty = true;
        let after = self.rope.len_chars();
        let ghost s2 = self.chars();
        proof {
            lemma_insert_str_valid(st, text@);
            lemma_offset_of_place(st.text, st.line, st.col);
            assert(s2.subrange(0, idx as int) =~= st.text.subrange(0, idx as int));
        }
        let end = idx + (after - before);
        let mut line = self.cursor.position.line;
        let mut col = self.cursor.position.col;
        let mut k = idx;
        let ghost mid = *self;
        while k < end
            invariant
                idx <= k <= end,
                end == idx + text@.len(),
                end <= s2.len() <= usize::MAX,
                *self == mid,
                mid.chars() == s2,
                line == line_at(s2, k as int),
                col == col_at(s2, k as int),
            decreases end - k,
        {
            let ch = self.rope.char(k);
            proof {
                assert(s2.subrange(0, k + 1) =~= s2.subrange(0, k as int).push(ch));
                lemma_push_counts(s2.subrange(0, k as int), ch);
                lemma_counts_bounded(s2.subrange(0, k + 1));
            }
            if ch == '\n' {
                line = line + 1;
                col = 0;
            } else {
                col = col + 1;
            }
            k = k + 1;
        }
        self.cursor.position.line = line;
        self.cursor.position.col = col;
    }

    /// Delete the character before the cursor (backspace); over a newline the
    /// cursor goes to the end of the merged line. Nothing happens at offset 0.
    pub fn delete_backward(&mut self)
        requires
            old(self).wf(),
        ensures
            cursor_offset(old(self).state()) <= 0 ==> *final(self) == *old(self),
            cursor_offset(old(self).state()) > 0 ==> final(self).edited_from(
                old(self),
                delete_backward_state(old(self).state()),
            ),
    {
        let ghost st = self.state();
        let idx = self.cursor_char_idx();
        if idx == 0 {
            return ;
        }
        let ch = self.rope.char(idx - 1);
        proof {
            lemma_delete_backward_valid(st);
        }
        remove_range(&mut self.rope, idx - 1, idx);
        self.dirty = true;
        proof {
            assert(self.chars() =~= st.text.remove(idx - 1));
        }
        if ch == '\n' {
            self.cursor.position.line = self.cursor.position.line - 1;
            self.cursor.position.col = self.line_len(self.cursor.position.line);
        } else {
            self.cursor.position.col = self.cursor.position.col - 1;
        }
    }

    /// Delete the character at the cursor (delete key); the cursor stays.
    /// Nothing happens at the end of the text.
    pub fn delete_forward(&mut self)
        requires
            old(self).wf(),
        ensures
            cursor_offset(old(self).state()) >= old(self).chars().len() ==> *final(self) == *old(self),
            cursor_offset(old(self).state()) < old(self).chars().len() ==> final(self).edited_from(
                old(self),
                delete_forward_state(old(self).state()),
            ),
    {
        let ghost st = self.state();
        let idx = self.cursor_char_idx();
        if idx >= self.rope.len_chars() {
            return ;
        }
        proof {
            lemma_delete_forward_valid(st);
        }
        remove_range(&mut self.rope, idx, idx + 1);
        self.dirty = true;
        proof {
            assert(self.chars() =~= st.text.remove(idx as int));
        }
    }

    /// Move cursor up one line, clamping the column to the new line's length
    pub fn move_up(&mut self)
        requires
            old(self).wf(),
        ensures
            final(self).moved_from(old(self), move_up_state(old(self).state())),
    {
        proof {
            lemma_navigation_keeps_cursor_valid(self.state());
        }
        if self.cursor.position.line > 0 {
            self.cursor.position.line = self.cursor.position.line - 1;
            let max_col = self.line_len(self.cursor.position.line);
            if max_col < self.cursor.position.col {
                self.cursor.position.col = max_col;
            }
        }
    }

    /// Move cursor down one line, clamping the column to the new line's length
    pub fn move_down(&mut self)
        requires
            old(self).wf(),
        ensures
            final(self).moved_from(old(self), move_down_state(old(self).state())),
    {
        proof {
            lemma_navigation_keeps_cursor_valid(self.state());
        }
        if self.cursor.position.line < self.rope.len_lines() - 1 {
            self.cursor.position.line = self.cursor.position.line + 1;
            let max_col = self.line_len(self.cursor.position.line);
            if max_col < self.cursor.position.col {
                self.cursor.position.col = max_col;
            }
        }
    }

    /// Move cursor left one character, wrapping to the end of the previous line
    pub fn move_left(&mut self)
        requires
            old(self).wf(),
        ensures
            final(self).moved_from(old(self), move_left_state(old(self).state())),
    {
        proof {
            lemma_navigation_keeps_cursor_valid(self.state());
        }
        if self.cursor.position.col > 0 {
            self.cursor.position.col = self.cursor.position.col - 1;
        } else if self.cursor.position.line > 0 {
            self.cursor.position.line = self.cursor.position.line - 1;
            self.cursor.position.col = self.line_len(self.cursor.position.line);
        }
    }

    /// Move cursor right one character, wrapping to the start of the next line
    pub fn move_right(&mut self)
        requires
            old(self).wf(),
        ensures
            final(self).moved_from(old(self), move_right_state(old(self).state())),
    {
        proof {
            lemma_navigation_keeps_cursor_valid(self.state());
        }
        let line_len = self.line_len(self.cursor.position.line);
        if self.cursor.position.col < line_len {
            self.cursor.position.col = self.cursor.position.col + 1;
        } else if self.cursor.position.line < self.rope.len_lines() - 1 {
            self.cursor.position.line = self.cursor.position.line + 1;
            self.cursor.position.col = 0;
        }
    }

    /// Move cursor to start of current line
    pub fn move_to_line_start(&mut self)
        requires
            old(self).wf(),
        ensures
            final(self).moved_from(old(self), line_start_state(old(self).state())),
    {
        proof {
            lemma_navigation_keeps_cursor_valid(self.state());
        }
        self.cursor.position.col = 0;
    }

    /// Move cursor to end of current line
    pub fn move_to_line_end(&mut self)
        requires
            old(self).wf(),
        ensures
            final(self).moved_from(old(self), line_end_state(old(self).state())),
    {
        proof {
            lemma_navigation_keeps_cursor_valid(self.state());
        }
        self.cursor.position.col = self.line_len(self.cursor.position.line);
    }

    /// All lines, in order, each without its newline
    pub fn lines(&self) -> (r: Vec<String>)
        ensures
            r.len() == line_total(self.chars()),
            forall|i: int| 0 <= i < r.len() ==> #[trigger] r@[i]@ == line_text(self.chars(), i),
    {
        let n = self.line_count();
        let total = self.rope.len_chars();
        let mut v: Vec<String> = Vec::new();
        let mut i: usize = 0;
        while i < n
            invariant
                i <= n,
                total == self.chars().len(),
                n == line_total(self.chars()),
                v.len() == i,
                forall|j: int| 0 <= j < i ==> #[trigger] v@[j]@ == line_text(self.chars(), j),
            decreases n - i,
        {
            proof {
                lemma_line_len_nonneg(self.chars(), i as int);
                lemma_line_start_bounded(self.chars(), i as int);
            }
            let start = self.rope.line_to_char(i);
            let len = self.line_len(i);
            v.push(slice_text(&self.rope, start, start + len));
            i = i + 1;
        }
        v
    }

    /// The full text content
    pub fn text(&self) -> (r: String)
        ensures
            r@ == self.chars(),
    {
        full_text(&self.rope)
    }

    /// Whether the buffer has unsaved changes
    pub fn is_dirty(&self) -> (r: bool)
        ensures
            r == self.modified(),
    {
        self.dirty
    }

    /// Mark as saved (clear the modified flag)
    pub fn mark_saved(&mut self)
        ensures
            !final(self).modified(),
            final(self).state() == old(self).state(),
            final(self).cursor() == old(self).cursor(),
            final(self).file_path() == old(self).file_path(),
    {
        self.dirty = false;
    }

    /// Set the file path
    pub fn set_path(&mut self, path: PathBuf)
        ensures
            final(self).file_path() == Some(path),
            final(self).state() == old(self).state(),
            final(self).cursor() == old(self).cursor(),
            final(self).modified() == old(self).modified(),
    {
        self.path = Some(path);
    }

    /// The file path, if one is set
    pub fn path(&self) -> (r: Option<&PathBuf>)
        ensures
            r is Some <==> self.file_path() is Some,
            r matches Some(p) ==> *p == self.file_path()->0,
    {
        self.path.as_ref()
    }

    /// Whether the buffer holds no characters
    pub fn is_empty(&self) -> (r: bool)
        ensures
            r == (self.chars().len() == 0),
    {
        self.rope.len_chars() == 0
    }

    /// Empty the buffer, reset the cursor and the modified flag; the path stays
    pub fn clear(&mut self)
        ensures
            final(self).chars().len() == 0,
            final(self).cursor().position.line == 0,
            final(self).cursor().position.col == 0,
            final(self).cursor().anchor is None,
            !final(self).modified(),
            final(self).file_path() == old(self).file_path(),
            final(self).wf(),
    {
        self.rope = ropey::Rope::new();
        self.cursor = Cursor::new();
        self.dirty = false;
        proof {
            lemma_place_of_offset(self.chars(), 0);
            assert(self.chars().subrange(0, 0) =~= Seq::<char>::empty());
        }
    }
}

impl Default for Buffer {
    fn default() -> (r: Self)
        ensures
            r.chars().len() == 0,
            r.state().line == 0,
            r.state().col == 0,
            r.cursor().anchor is None,
            !r.modified(),
            r.file_path() is None,
            r.wf(),
    {
        Buffer::new()
    }
}

} // verus!
