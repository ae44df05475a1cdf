//! The state behind the panels of the terminal view: what is selected,
//! how far the log is scrolled, what a key press changes and which command
//! it sends. Drawing is left to the application.

use vstd::prelude::*;

use crate::commander::Command;

pub mod section_filters;
pub mod section_logs;
pub mod section_sources;

verus! {

/// A key press, as far as the panels and the command line tell keys apart.
#[derive(Clone, Copy, Debug, PartialEq, Eq, Structural)]
pub enum Key {
    Char(char),
    Enter,
    Esc,
    Backspace,
    Up,
    Down,
    Home,
    End,
    PageUp,
    PageDown,
    Other,
}

/// A panel of the view.
pub trait LayoutSection {
    /// Handle user input: the panel changes as the key asks, and the
    /// commands that the key sends to the dispatch loop are handed back, in
    /// order.
    fn process_key(&mut self, key: Key) -> Vec<Command>;

    /// How many lines would it like to have in this frame
    fn min_lines(&self) -> usize;
}

/// The selection after a step down in a list of `len` entries: one
/// further, but not past the last entry.
pub open spec fn step_down(selected: usize, len: usize) -> usize {
    if len == 0 {
        selected
    } else if selected + 1 < len {
        (selected + 1) as usize
    } else {
        (len - 1) as usize
    }
}

/// The selection after a step up: one back, but not before the first.
pub open spec fn step_up(selected: usize) -> usize {
    if selected == 0 {
        0
    } else {
        (selected - 1) as usize
    }
}

/// The lines that a list of `len` entries asks for inside its borders.
pub open spec fn framed_lines(len: usize) -> usize {
    if len == 0 {
        3
    } else if len + 2 > usize::MAX {
        usize::MAX
    } else {
        (len + 2) as usize
    }
}

/// Moves a selection one entry down.
pub fn move_down(selected: usize, len: usize) -> (r: usize)
    ensures
        r == step_down(selected, len),
{
    if len == 0 {
        selected
    } else if selected < len - 1 {
        selected + 1
    } else {
        len - 1
    }
}

/// Moves a selection one entry up.
pub fn move_up(selected: usize) -> (r: usize)
    ensures
        r == step_up(selected),
{
    selected.saturating_sub(1)
}

/// Counts the lines that a list asks for inside its borders.
pub fn lines_framed(len: usize) -> (r: usize)
    ensures
        r == framed_lines(len),
{
    if len == 0 {
        3
    } else {
        len.saturating_add(2)
    }
}

} // verus!
