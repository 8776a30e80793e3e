//! Cursor: a logical position with an optional selection anchor.
use vstd::prelude::*;

verus! {

/// A position in the text: zero-based line and column (in characters).
#[derive(Debug, Clone, Copy, PartialEq, Eq, Structural)]
pub struct Position {
    /// Line index (0-based)
    pub line: usize,
    /// Column index (0-based, in characters, excluding the line's newline)
    pub col: usize,
}

/// `a` comes strictly before `b` in (line, col) order.
pub open spec fn pos_before(a: Position, b: Position) -> bool {
    a.line < b.line || (a.line == b.line && a.col < b.col)
}

impl Position {
    pub fn new(line: usize, col: usize) -> (r: Self)
        ensures
            r.line == line,
            r.col == col,
    {
        Position { line, col }
    }
}

impl Default for Position {
    fn default() -> (r: Self)
        ensures
            r.line == 0,
            r.col == 0,
    {
        Position { line: 0, col: 0 }
    }
}

/// Cursor state: the current position and, while selecting, the anchor.
#[derive(Debug, Clone, Copy)]
pub struct Cursor {
    /// Current cursor position
    pub position: Position,
    /// Selection anchor (if selecting)
    pub anchor: Option<Position>,
}

impl Cursor {
    /// A cursor at (0, 0) with no selection.
    pub fn new() -> (r: Self)
        ensures
            r.position.line == 0,
            r.position.col == 0,
            r.anchor is None,
    {
        Cursor { position: Position { line: 0, col: 0 }, anchor: None }
    }

    /// Whether a selection is active.
    pub fn has_selection(&self) -> (r: bool)
        ensures
            r == self.anchor is Some,
    {
        self.anchor.is_some()
    }

    /// The selection as (start, end), the earlier position first.
    pub fn selection_range(&self) -> (r: Option<(Position, Position)>)
        ensures
            self.anchor is None ==> r is None,
            self.anchor matches Some(a) ==> r == Some(
                if pos_before(self.position, a) {
                    (self.position, a)
                } else {
                    (a, self.position)
                },
            ),
    {
        match self.anchor {
            None => None,
            Some(anchor) => {
                if self.position.line < anchor.line || (self.position.line == anchor.line
                    && self.position.col < anchor.col) {
                    Some((self.position, anchor))
                } else {
                    Some((anchor, self.position))
                }
            },
        }
    }

    /// Drop the selection; the position is kept.
    pub fn clear_selection(&mut self)
        ensures
            final(self).anchor is None,
            final(self).position == old(self).position,
    {
        self.anchor = None;
    }
}

impl Default for Cursor {
    fn default() -> (r: Self)
        ensures
            r.position.line == 0,
            r.position.col == 0,
            r.anchor is None,
    {
        Cursor::new()
    }
}

} // verus!
