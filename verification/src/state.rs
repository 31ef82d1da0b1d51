//! The keyboard mode that decides how a keystroke is read.

use vstd::prelude::*;

verus! {

/// The keyboard mode of the application. Exactly one is active at a time, and
/// it alone decides whether a key is text, a command or ignored.
#[derive(Debug, Clone, Copy, PartialEq, Eq, Structural)]
pub enum InputMode {
    /// Keys are commands: `e` edits, `/` opens a command line, `q` quits.
    Normal,
    /// Keys are text for the input buffer.
    Editing,
    /// Keys are text for a slash command.
    Command,
}

impl Default for InputMode {
    /// The application starts ready to type.
    fn default() -> (mode: Self)
        ensures
            mode == InputMode::Editing,
    {
        InputMode::Editing
    }
}

} // verus!
