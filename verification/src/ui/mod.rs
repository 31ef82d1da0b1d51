//! What the renderer shows and where: plain values that a front end turns
//! into cells on a screen.

use vstd::prelude::*;

pub mod chat;
pub mod input;
pub mod layout;

verus! {

/// A rectangle of terminal cells: its top left corner and its size.
#[derive(Debug, Clone, Copy, PartialEq, Eq, Structural)]
pub struct Rect {
    pub x: u16,
    pub y: u16,
    pub width: u16,
    pub height: u16,
}

/// The colours that the application paints with.
#[derive(Debug, Clone, Copy, PartialEq, Eq, Structural)]
pub enum Color {
    Cyan,
    Green,
    Yellow,
    Magenta,
    White,
    DarkGray,
}

/// The number as a `u16`, and the largest `u16` where it does not fit.
pub open spec fn clamp_u16(n: int) -> u16 {
    if n < 0 {
        0
    } else if n > u16::MAX {
        u16::MAX
    } else {
        n as u16
    }
}

/// The colour of the bars that separate the input box from what is above
/// and below it.
pub fn separator_color() -> (color: Color)
    ensures
        color == Color::DarkGray,
{
    Color::DarkGray
}

} // verus!
