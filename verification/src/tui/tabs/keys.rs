//! Keys as the tabs see them.

use vstd::prelude::*;

verus! {

/// A key that was pressed.
#[derive(Clone, Copy, Debug, PartialEq, Eq, Structural)]
pub enum KeyCode {
    Left,
    Right,
    Up,
    Down,
    PageUp,
    PageDown,
    Home,
    End,
    Backspace,
    Esc,
    /// A character key.
    Char(char),
    /// Any other key.
    Other,
}

/// What a tab did with a key.
#[derive(Clone, Copy, Debug, PartialEq, Eq, Structural)]
pub enum KeyboardResponse {
    /// The key was handled.
    Consume,
    /// The key means nothing to the tab.
    Pass,
}

} // verus!
