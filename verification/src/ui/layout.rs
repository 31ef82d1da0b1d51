//! The screen divided into rows: the chat above, the input box below it
//! between two separator bars.

use vstd::prelude::*;
use crate::ui::input::input_height;
use crate::ui::Rect;

verus! {

/// What a row asks of the space that is divided.
#[derive(Debug, Clone, Copy, PartialEq, Eq, Structural)]
pub enum RowConstraint {
    /// At least this many cells, and what the other rows leave.
    Min(u16),
    /// Exactly this many cells.
    Length(u16),
}

/// The four rows of the screen, from top to bottom.
#[derive(Debug, Clone, Copy, PartialEq, Eq, Structural)]
pub struct Regions {
    /// The conversation.
    pub chat: Rect,
    /// The bar above the input box.
    pub top_bar: Rect,
    /// The input box.
    pub input: Rect,
    /// The bar below the input box.
    pub bottom_bar: Rect,
}

/// What the four rows ask for when the input box is `input_height` high:
/// the chat takes what is left, each bar takes one row.
pub open spec fn row_constraints(input_height: u16) -> Seq<RowConstraint> {
    seq![
        RowConstraint::Min(1),
        RowConstraint::Length(1),
        RowConstraint::Length(input_height),
        RowConstraint::Length(1),
    ]
}

/// The rectangle spans `area` from left to right.
pub open spec fn spans(row: Rect, area: Rect) -> bool {
    row.x == area.x && row.width == area.width
}

/// Four rectangles as the four rows of the screen.
pub open spec fn regions_of(rows: Seq<Rect>) -> Regions
    recommends
        rows.len() == 4,
{
    Regions { chat: rows[0], top_bar: rows[1], input: rows[2], bottom_bar: rows[3] }
}

/// The rectangle lies between the top and the bottom edge of `area`.
pub open spec fn inside_rows(row: Rect, area: Rect) -> bool {
    area.y <= row.y && row.y + row.height <= area.y + area.height
}

/// Calls ratatui's `Layout::split` on a vertical layout with the given
/// constraints, no margin and the default spacing. The contract claims what
/// the source shows of every result: one rectangle for each constraint, each
/// as wide as `area`, with its left edge, and between its top and bottom
/// edge. Where in `area` a row starts and how high it is comes from
/// ratatui's constraint solver, which may answer one question in more than
/// one way, and nothing more is claimed of it.
#[verifier::external_body]
fn split_rows(area: Rect, constraints: &Vec<RowConstraint>) -> (rows: Vec<Rect>)
    ensures
        rows@.len() == constraints@.len(),
        forall|i: int| 0 <= i < rows@.len() ==> spans(#[trigger] rows@[i], area),
        forall|i: int| 0 <= i < rows@.len() ==> inside_rows(#[trigger] rows@[i], area),
{
    let wanted = constraints.iter().map(|c| match c {
        RowConstraint::Min(n) => ratatui::layout::Constraint::Min(*n),
        RowConstraint::Length(n) => ratatui::layout::Constraint::Length(*n),
    });
    let outer =
        ratatui::layout::Rect { x: area.x, y: area.y, width: area.width, height: area.height };
    let rows = ratatui::layout::Layout::default()
        .direction(ratatui::layout::Direction::Vertical)
        .constraints(wanted)
        .split(outer);
    rows.iter().map(|r| Rect { x: r.x, y: r.y, width: r.width, height: r.height }).collect()
}

impl Regions {
    /// The four rows of the screen from the rectangles of a split, if they
    /// are four.
    pub fn from_rows(rows: &Vec<Rect>) -> (regions: Option<Regions>)
        ensures
            regions == if rows@.len() == 4 {
                Some(regions_of(rows@))
            } else {
                None
            },
    {
        if rows.len() == 4 {
            Some(Regions { chat: rows[0], top_bar: rows[1], input: rows[2], bottom_bar: rows[3] })
        } else {
            None
        }
    }
}

/// What the four rows ask for when the input box is `input_height` high.
pub fn constraints_for(input_height: u16) -> (constraints: Vec<RowConstraint>)
    ensures
        constraints@ == row_constraints(input_height),
{
    let mut constraints = Vec::new();
    constraints.push(RowConstraint::Min(1));
    constraints.push(RowConstraint::Length(1));
    constraints.push(RowConstraint::Length(input_height));
    constraints.push(RowConstraint::Length(1));
    assert(constraints@ =~= row_constraints(input_height));
    constraints
}

/// Divides `area` into the four rows of the screen for the given input
/// text. The solver is asked for [`row_constraints`] with the height of the
/// input box, and its four rows are the regions in that order. Whatever it
/// answers, every region spans `area` from left to right and lies between
/// its top and its bottom edge.
pub fn draw_regions(input: &str, area: Rect) -> (regions: Regions)
    ensures
        spans(regions.chat, area),
        spans(regions.top_bar, area),
        spans(regions.input, area),
        spans(regions.bottom_bar, area),
        inside_rows(regions.chat, area),
        inside_rows(regions.top_bar, area),
        inside_rows(regions.input, area),
        inside_rows(regions.bottom_bar, area),
{
    let constraints = constraints_for(input_height(input));
    let rows = split_rows(area, &constraints);
    Regions::from_rows(&rows).unwrap()
}

} // verus!
