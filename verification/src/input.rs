//! The commands understood by the game window.

use vstd::prelude::*;

verus! {

/// A key of the game's menu interface.
#[derive(Debug, PartialEq, Eq, Structural, Clone, Copy)]
pub enum Key {
    Confirm,
    Cancel,
    Escape,
    Enter,
    Up,
    Down,
    Left,
    Right,
    /// Moves the focus to the previous control.
    Backward,
    /// Opens the crafting log.
    CraftingLog,
}

/// One write-only command for the game window.
#[derive(Debug, PartialEq, Eq, Structural, Clone, Copy)]
pub enum Input {
    /// Press and release a key.
    Press(Key),
    /// Type one character into the focused text box.
    Char(char),
    /// Do nothing for this many milliseconds.
    Wait(u64),
}

} // verus!
