//! Editing keys: which buffer operation each key press performs.
use vstd::prelude::*;
use crate::buffer::Buffer;
use crate::edit::{
    TextState, cursor_offset, delete_backward_state, delete_forward_state, insert_char_state,
    line_end_state, line_start_state, move_down_state, move_left_state, move_right_state,
    move_up_state,
};

verus! {

/// A key press, as far as editing tells keys apart.
#[derive(Debug, Clone, Copy, PartialEq, Eq, Structural)]
pub enum EditKey {
    /// A key that types this character
    Character(char),
    Backspace,
    Delete,
    Enter,
    Tab,
    ArrowUp,
    ArrowDown,
    ArrowLeft,
    ArrowRight,
    Home,
    End,
    /// Any key that does not edit
    Other,
}

/// Text and cursor place after pressing `key`; a character typed while Ctrl
/// or Alt is held does nothing.
pub open spec fn key_state(st: TextState, key: EditKey, ctrl: bool, alt: bool) -> TextState {
    match key {
        EditKey::Character(c) => if !ctrl && !alt {
            insert_char_state(st, c)
        } else {
            st
        },
        EditKey::Backspace => delete_backward_state(st),
        EditKey::Delete => delete_forward_state(st),
        EditKey::Enter => insert_char_state(st, '\n'),
        EditKey::Tab => insert_char_state(st, '\t'),
        EditKey::ArrowUp => move_up_state(st),
        EditKey::ArrowDown => move_down_state(st),
        EditKey::ArrowLeft => move_left_state(st),
        EditKey::ArrowRight => move_right_state(st),
        EditKey::Home => line_start_state(st),
        EditKey::End => line_end_state(st),
        EditKey::Other => st,
    }
}

/// Pressing `key` changes the text (and so marks the buffer modified).
pub open spec fn key_edits(st: TextState, key: EditKey, ctrl: bool, alt: bool) -> bool {
    match key {
        EditKey::Character(_) => !ctrl && !alt,
        EditKey::Backspace => cursor_offset(st) > 0,
        EditKey::Delete => cursor_offset(st) < st.text.len(),
        EditKey::Enter | EditKey::Tab => true,
        _ => false,
    }
}

/// Apply one key press to the buffer.
pub fn handle_key(buffer: &mut Buffer, key: EditKey, ctrl: bool, alt: bool)
    requires
        old(buffer).wf(),
    ensures
        final(buffer).wf(),
        final(buffer).state() == key_state(old(buffer).state(), key, ctrl, alt),
        final(buffer).modified() == (old(buffer).modified() || key_edits(
            old(buffer).state(),
            key,
            ctrl,
            alt,
        )),
        final(buffer).cursor().anchor == old(buffer).cursor().anchor,
        final(buffer).file_path() == old(buffer).file_path(),
{
    match key {
        EditKey::Character(c) => {
            if !ctrl && !alt {
                buffer.insert_char(c)
            }
        },
        EditKey::Backspace => buffer.delete_backward(),
        EditKey::Delete => buffer.delete_forward(),
        EditKey::Enter => buffer.insert_char('\n'),
        EditKey::Tab => buffer.insert_char('\t'),
        EditKey::ArrowUp => buffer.move_up(),
        EditKey::ArrowDown => buffer.move_down(),
        EditKey::ArrowLeft => buffer.move_left(),
        EditKey::ArrowRight => buffer.move_right(),
        EditKey::Home => buffer.move_to_line_start(),
        EditKey::End => buffer.move_to_line_end(),
        EditKey::Other => {},
    }
}

} // verus!
