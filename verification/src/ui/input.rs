//! The input box: how tall it is, how it is painted, and where the cursor
//! stands in it.

use vstd::prelude::*;
use crate::state::InputMode;
use crate::ui::{clamp_u16, Color, Rect};

verus! {

/// The input box never grows beyond this many rows.
pub const MAX_INPUT_ROWS: u16 = 10;

/// What Normal mode shows to remind the user of its keys.
pub const HELP_TEXT: &'static str = "Press 'e' to edit, 'q' to quit, '/' for commands";

/// How many line breaks the text holds.
pub open spec fn newline_count(text: Seq<char>) -> nat
    decreases text.len(),
{
    if text.len() == 0 {
        0
    } else if text.last() == '\n' {
        newline_count(text.drop_last()) + 1
    } else {
        newline_count(text.drop_last())
    }
}

/// What follows the last line break, or the whole text where there is
/// none: the line on which the cursor stands.
pub open spec fn last_line(text: Seq<char>) -> Seq<char>
    decreases text.len(),
{
    if text.len() == 0 || text.last() == '\n' {
        Seq::empty()
    } else {
        last_line(text.drop_last()).push(text.last())
    }
}

/// How many lines the text has. A line break ends a line, and what follows
/// the last one counts only if it is not empty: the empty text has no line,
/// `"a\n"` has one and `"a\nb"` has two.
pub open spec fn line_count(text: Seq<char>) -> nat {
    if last_line(text).len() > 0 {
        newline_count(text) + 1
    } else {
        newline_count(text)
    }
}

/// The height of the input box for the text: one row for each line, at
/// least one and at most [`MAX_INPUT_ROWS`].
pub open spec fn input_rows(text: Seq<char>) -> nat {
    if line_count(text) < 1 {
        1
    } else if line_count(text) > MAX_INPUT_ROWS {
        MAX_INPUT_ROWS as nat
    } else {
        line_count(text)
    }
}

/// How many columns of the terminal the line takes, as ratatui's
/// `Line::width` counts them: a wide character takes two.
pub uninterp spec fn line_columns(line: Seq<char>) -> nat;

/// The cell that lies `columns` to the right of and `breaks` below the top
/// left corner (`x`, `y`), each coordinate held to what a `u16` can say.
pub open spec fn cell_at(x: u16, y: u16, columns: nat, breaks: nat) -> (u16, u16) {
    (clamp_u16(x + columns), clamp_u16(y + breaks))
}

/// Where the cursor stands for the text in a box whose top left corner is at
/// (`x`, `y`): behind the last line, as column and row.
pub open spec fn cursor_cell(text: Seq<char>, x: u16, y: u16) -> (u16, u16) {
    cell_at(x, y, line_columns(last_line(text)), newline_count(text))
}

/// Adding a character moves the count and the last line as the character
/// says.
proof fn lemma_counts_step(text: Seq<char>, i: int)
    requires
        0 <= i < text.len(),
    ensures
        newline_count(text.take(i + 1)) == newline_count(text.take(i)) + if text[i] == '\n' {
            1nat
        } else {
            0nat
        },
        last_line(text.take(i + 1)) == if text[i] == '\n' {
            Seq::empty()
        } else {
            last_line(text.take(i)).push(text[i])
        },
{
    assert(text.take(i + 1).drop_last() =~= text.take(i));
    assert(text.take(i + 1).last() == text[i]);
}

/// One pass over the text: the number of line breaks, held to what a `u16`
/// can say, and the last line.
fn measure(text: &str) -> (size: (u16, String))
    ensures
        size.0 == clamp_u16(newline_count(text@) as int),
        size.1@ == last_line(text@),
{
    let mut breaks: u16 = 0;
    let mut tail = String::new();
    for c in it: text.chars()
        invariant
            it.seq() == text@,
            breaks == clamp_u16(newline_count(text@.take(it.index() as int)) as int),
            tail@ == last_line(text@.take(it.index() as int)),
    {
        proof {
            lemma_counts_step(text@, it.index() as int);
        }
        if c == '\n' {
            breaks = breaks.saturating_add(1);
            tail = String::new();
        } else {
            tail.push(c);
        }
    }
    assert(text@.take(text@.len() as int) =~= text@);
    (breaks, tail)
}

/// Calls ratatui's `Line::width` on a line that holds just this text. The
/// contract claims that the width is [`line_columns`] of the text.
#[verifier::external_body]
fn columns_of(line: &str) -> (columns: usize)
    ensures
        columns == line_columns(line@),
{
    ratatui::text::Line::raw(line).width()
}

/// The height of the input box for the text.
pub fn input_height(text: &str) -> (rows: u16)
    ensures
        rows == input_rows(text@),
        1 <= rows <= MAX_INPUT_ROWS,
{
    let (breaks, tail) = measure(text);
    let lines: u16 = if tail.as_str().is_empty() {
        breaks
    } else {
        breaks.saturating_add(1)
    };
    if lines < 1 {
        1
    } else if lines > MAX_INPUT_ROWS {
        MAX_INPUT_ROWS
    } else {
        lines
    }
}

/// The colour of the text in the input box: magenta marks a command, and
/// any other input is white.
pub fn input_color(mode: InputMode) -> (color: Color)
    ensures
        color == if mode == InputMode::Command {
            Color::Magenta
        } else {
            Color::White
        },
{
    match mode {
        InputMode::Command => Color::Magenta,
        _ => Color::White,
    }
}

/// The cell that lies `columns` to the right of and `breaks` below the top
/// left corner of `area`.
pub fn cursor_at(area: Rect, columns: usize, breaks: u16) -> (cell: (u16, u16))
    ensures
        cell == cell_at(area.x, area.y, columns as nat, breaks as nat),
{
    let right: u16 = if columns > 0xFFFF {
        0xFFFF
    } else {
        columns as u16
    };
    (area.x.saturating_add(right), area.y.saturating_add(breaks))
}

/// Where to show the cursor for the text in the box `area`. Only Editing
/// mode shows one: behind the last line, as many columns to the right as
/// the line is wide and as many rows down as the text has line breaks.
pub fn cursor_position(text: &str, mode: InputMode, area: Rect) -> (cell: Option<(u16, u16)>)
    ensures
        cell == if mode == InputMode::Editing {
            Some(cursor_cell(text@, area.x, area.y))
        } else {
            None
        },
{
    match mode {
        InputMode::Editing => {
            let (breaks, tail) = measure(text);
            Some(cursor_at(area, columns_of(tail.as_str()), breaks))
        },
        _ => None,
    }
}

/// The reminder of keys that is shown in Normal mode and in no other.
pub fn help_text(mode: InputMode) -> (help: Option<&'static str>)
    ensures
        help == if mode == InputMode::Normal {
            Some(HELP_TEXT)
        } else {
            None
        },
{
    match mode {
        InputMode::Normal => Some(HELP_TEXT),
        _ => None,
    }
}

/// The colour of the reminder of keys, which is shown in bold.
pub fn help_color() -> (color: Color)
    ensures
        color == Color::Cyan,
{
    Color::Cyan
}

} // verus!
