//! Terminal input as plain values: what a key or mouse event says, and
//! nothing of how the terminal encoded it.

use vstd::prelude::*;

verus! {

/// The key that was pressed, as far as the application tells keys apart.
#[derive(Debug, Clone, Copy, PartialEq, Eq, Structural)]
pub enum KeyCode {
    /// A key that produces a character.
    Char(char),
    Enter,
    Backspace,
    Esc,
    Up,
    Down,
    PageUp,
    PageDown,
    Home,
    End,
    /// Any key that the application has no use for.
    Other,
}

/// One key press with the modifiers that were held.
#[derive(Debug, Clone, Copy, PartialEq, Eq, Structural)]
pub struct KeyEvent {
    pub code: KeyCode,
    /// Ctrl was held.
    pub control: bool,
    /// Alt (Option) was held.
    pub alt: bool,
}

/// What the mouse did, as far as the application tells it apart.
#[derive(Debug, Clone, Copy, PartialEq, Eq, Structural)]
pub enum MouseEventKind {
    ScrollUp,
    ScrollDown,
    /// A click, a drag or a move.
    Other,
}

/// One event read from the terminal.
#[derive(Debug, Clone, Copy, PartialEq, Eq, Structural)]
pub enum InputEvent {
    Key(KeyEvent),
    Mouse(MouseEventKind),
    /// A resize, a paste, a change of focus.
    Other,
}

impl KeyEvent {
    /// The key with no modifier held.
    pub open spec fn plain(code: KeyCode) -> KeyEvent {
        KeyEvent { code, control: false, alt: false }
    }

    /// Ctrl+C, the key that asks to quit.
    pub open spec fn is_quit_chord(self) -> bool {
        self.code == KeyCode::Char('c') && self.control
    }
}

} // verus!
