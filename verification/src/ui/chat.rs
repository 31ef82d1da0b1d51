//! The chat window: the lines that show the conversation, and which of them
//! is the first in view.

use vstd::prelude::*;
use crate::app::message_views;
use crate::types::{Message, MessageRole, MessageView};
use crate::ui::{clamp_u16, Color};

verus! {

/// One line of the chat window.
#[derive(Debug, PartialEq, Eq)]
pub enum ChatLine {
    /// The text of a message, to be shown behind the label of its sender.
    Text { role: MessageRole, content: String },
    /// The empty line that follows a message.
    Blank,
}

/// A line of the chat window with its text as a sequence of characters.
pub enum ChatLineView {
    Text { role: MessageRole, content: Seq<char> },
    Blank,
}

impl View for ChatLine {
    type V = ChatLineView;

    open spec fn view(&self) -> ChatLineView {
        match self {
            ChatLine::Text { role, content } => ChatLineView::Text {
                role: *role,
                content: content@,
            },
            ChatLine::Blank => ChatLineView::Blank,
        }
    }
}

/// The views of the lines, in order.
pub open spec fn line_views(lines: Seq<ChatLine>) -> Seq<ChatLineView> {
    lines.map_values(|line: ChatLine| line@)
}

/// The lines that show the messages: for each message its text, then an
/// empty line.
pub open spec fn lines_of(messages: Seq<MessageView>) -> Seq<ChatLineView> {
    Seq::new(
        2 * messages.len(),
        |i: int|
            if i % 2 == 0 {
                ChatLineView::Text { role: messages[i / 2].role, content: messages[i / 2].content }
            } else {
                ChatLineView::Blank
            },
    )
}

/// A chat window wider than this many cells is not measured.
pub const MAX_WRAP_WIDTH: u16 = 0x3FFF;

/// The label that is shown before a message of the role, with the space
/// that separates it from the text.
pub open spec fn role_label(role: MessageRole) -> Seq<char> {
    match role {
        MessageRole::User => "You: "@,
        MessageRole::Assistant => "AI: "@,
        MessageRole::System => "System: "@,
    }
}

/// How many rows ratatui's `Paragraph::line_count` gives, for a window
/// `width` cells wide, to a paragraph of two lines that wraps without
/// trimming: the first line is `label` followed by `content`, the second is
/// `below`.
pub uninterp spec fn wrapped_rows(
    label: Seq<char>,
    content: Seq<char>,
    below: Seq<char>,
    width: u16,
) -> nat;

/// The rows that a message takes in a window `width` cells wide: its text
/// behind its label, wrapped, and the empty line below.
pub open spec fn message_rows(message: MessageView, width: u16) -> nat {
    wrapped_rows(role_label(message.role), message.content, Seq::empty(), width)
}

/// The rows that the lines take together.
pub open spec fn total_rows(rows: Seq<usize>) -> nat
    decreases rows.len(),
{
    if rows.len() == 0 {
        0
    } else {
        total_rows(rows.drop_last()) + rows.last() as nat
    }
}

/// The rows of all messages but the latest `offset`, where `rows` holds the
/// rows of each message, oldest first.
pub open spec fn rows_above_offset(rows: Seq<usize>, offset: nat) -> nat {
    if offset >= rows.len() {
        0
    } else {
        total_rows(rows.take(rows.len() - offset))
    }
}

/// The first row in view in a window of `visible` rows that is shifted up by
/// `offset` messages, where `rows` holds the rows of each message, oldest
/// first. The window ends with the last row of the message that stands
/// `offset` messages before the latest: at offset 0 with the last row of the
/// conversation. It never starts before the first row.
pub open spec fn first_visible_row(rows: Seq<usize>, visible: nat, offset: nat) -> nat {
    let end = rows_above_offset(rows, offset);
    if end <= visible {
        0
    } else {
        (end - visible) as nat
    }
}

/// The label that is shown before a message of the role, with the space
/// that separates it from the text.
pub fn role_prefix(role: MessageRole) -> (prefix: &'static str)
    ensures
        prefix@ == role_label(role),
{
    match role {
        MessageRole::User => "You: ",
        MessageRole::Assistant => "AI: ",
        MessageRole::System => "System: ",
    }
}

/// The colour of the label of the role.
pub fn role_color(role: MessageRole) -> (color: Color)
    ensures
        color == match role {
            MessageRole::User => Color::Cyan,
            MessageRole::Assistant => Color::Green,
            MessageRole::System => Color::Yellow,
        },
{
    match role {
        MessageRole::User => Color::Cyan,
        MessageRole::Assistant => Color::Green,
        MessageRole::System => Color::Yellow,
    }
}

/// The lines that show the messages from index `from` on; none if there is
/// no such message.
pub fn chat_lines(messages: &Vec<Message>, from: usize) -> (lines: Vec<ChatLine>)
    ensures
        line_views(lines@) == if from <= messages@.len() {
            lines_of(message_views(messages@).skip(from as int))
        } else {
            Seq::empty()
        },
{
    let mut lines: Vec<ChatLine> = Vec::new();
    if from > messages.len() {
        assert(line_views(lines@) =~= Seq::empty());
        return lines;
    }
    let ghost shown = message_views(messages@).skip(from as int);
    let mut i: usize = from;
    while i < messages.len()
        invariant
            from <= i <= messages.len(),
            shown == message_views(messages@).skip(from as int),
            line_views(lines@) =~= lines_of(shown.take(i - from)),
        decreases messages.len() - i,
    {
        let message = &messages[i];
        let ghost before = lines@;
        lines.push(ChatLine::Text { role: message.role, content: message.content.clone() });
        lines.push(ChatLine::Blank);
        proof {
            let next = shown.take(i + 1 - from);
            let prev = shown.take(i - from);
            assert(shown.len() == messages@.len() - from);
            assert(prev.len() == i - from);
            assert(next.len() == i + 1 - from);
            assert(line_views(before).len() == 2 * prev.len());
            assert(before.len() == 2 * prev.len());
            assert(lines@ == before.push(
                ChatLine::Text { role: message.role, content: message.content },
            ).push(ChatLine::Blank));
            assert(lines@.len() == 2 * next.len());
            assert(shown[i - from] == message@);
            assert(next[i - from] == message@);
            assert forall|k: int| 0 <= k < 2 * next.len() implies #[trigger] line_views(lines@)[k]
                == lines_of(next)[k] by {
                if k < 2 * prev.len() {
                    assert(lines@[k] == before[k]);
                    assert(line_views(before)[k] == lines_of(prev)[k]);
                    assert(prev[k / 2] == next[k / 2]);
                } else if k == 2 * prev.len() {
                    assert(k / 2 == i - from);
                } else {
                    assert(k == 2 * prev.len() + 1);
                }
            }
            assert(line_views(lines@) =~= lines_of(next));
        }
        i += 1;
    }
    assert(shown.take(i - from) =~= shown);
    lines
}

/// Calls ratatui's `Paragraph::line_count` on a paragraph of two lines, the
/// first `label` followed by `content` and the second `below`, that wraps
/// without trimming. The contract claims that the count is [`wrapped_rows`]
/// of the arguments. Widths above [`MAX_WRAP_WIDTH`] are left out: ratatui
/// adds widths up in 16 bits.
#[verifier::external_body]
fn count_rows(label: &str, content: &str, below: &str, width: u16) -> (rows: usize)
    requires
        width <= MAX_WRAP_WIDTH,
    ensures
        rows == wrapped_rows(label@, content@, below@, width),
{
    let first = ratatui::text::Line::from(vec![
        ratatui::text::Span::raw(label),
        ratatui::text::Span::raw(content),
    ]);
    let second = ratatui::text::Line::from(vec![ratatui::text::Span::raw(below)]);
    ratatui::widgets::Paragraph::new(vec![first, second])
        .wrap(ratatui::widgets::Wrap { trim: false })
        .line_count(width)
}

/// The rows that each message takes in a window `width` cells wide, oldest
/// first; `None` for a window wider than [`MAX_WRAP_WIDTH`], which is not
/// measured.
pub fn chat_rows(messages: &Vec<Message>, width: u16) -> (rows: Option<Vec<usize>>)
    ensures
        rows is Some <==> width <= MAX_WRAP_WIDTH,
        rows matches Some(rows) ==> {
            &&& rows@.len() == messages@.len()
            &&& forall|i: int|
                0 <= i < rows@.len() ==> rows@[i] == message_rows(#[trigger] messages@[i]@, width)
        },
{
    if width > MAX_WRAP_WIDTH {
        return None;
    }
    let mut rows: Vec<usize> = Vec::new();
    let mut i: usize = 0;
    while i < messages.len()
        invariant
            width <= MAX_WRAP_WIDTH,
            i <= messages.len(),
            rows@.len() == i,
            forall|k: int| 0 <= k < i ==> rows@[k] == message_rows(#[trigger] messages@[k]@, width),
        decreases messages.len() - i,
    {
        let message = &messages[i];
        rows.push(count_rows(role_prefix(message.role), message.content.as_str(), "", width));
        proof {
            reveal_strlit("");
            assert(""@ =~= Seq::<char>::empty());
        }
        i += 1;
    }
    Some(rows)
}

/// The first row in view, as the scroll position of the chat window: see
/// [`first_visible_row`]. The position is a `u16`, and the largest one
/// where the row's number does not fit.
pub fn scroll_position(rows: &Vec<usize>, visible_height: u16, scroll_offset: usize) -> (top: u16)
    ensures
        top == clamp_u16(
            first_visible_row(rows@, visible_height as nat, scroll_offset as nat) as int,
        ),
{
    if scroll_offset >= rows.len() {
        return 0;
    }
    let kept: usize = rows.len() - scroll_offset;
    let mut end: u128 = 0;
    let mut i: usize = 0;
    while i < kept
        invariant
            i <= kept <= rows.len(),
            end == total_rows(rows@.take(i as int)),
            end <= i * 0xFFFF_FFFF_FFFF_FFFF,
        decreases kept - i,
    {
        proof {
            assert(rows@.take(i + 1).drop_last() =~= rows@.take(i as int));
            assert(rows@.take(i + 1).last() == rows@[i as int]);
        }
        end = end + rows[i] as u128;
        i += 1;
    }
    let visible: u128 = visible_height as u128;
    if end <= visible {
        0
    } else if end - visible > 0xFFFF {
        0xFFFF
    } else {
        (end - visible) as u16
    }
}

/// The scroll position of the chat window for the messages, in a window
/// `width` cells wide and `visible_height` rows high that is shifted up by
/// `scroll_offset` messages; `None` for a window wider than
/// [`MAX_WRAP_WIDTH`], which is not measured.
pub fn chat_scroll(
    messages: &Vec<Message>,
    width: u16,
    visible_height: u16,
    scroll_offset: usize,
) -> (top: Option<u16>)
    ensures
        top is Some <==> width <= MAX_WRAP_WIDTH,
        top matches Some(top) ==> exists|rows: Seq<usize>|
            {
                &&& rows.len() == messages@.len()
                &&& forall|i: int|
                    0 <= i < rows.len() ==> rows[i] == message_rows(#[trigger] messages@[i]@, width)
                &&& top == clamp_u16(
                    first_visible_row(rows, visible_height as nat, scroll_offset as nat) as int,
                )
            },
{
    match chat_rows(messages, width) {
        Some(rows) => Some(scroll_position(&rows, visible_height, scroll_offset)),
        None => None,
    }
}

/// The rows of a part of the conversation are no more than the rows of the
/// whole.
pub proof fn lemma_total_rows_grow(rows: Seq<usize>, count: int)
    requires
        0 <= count <= rows.len(),
    ensures
        total_rows(rows.take(count)) <= total_rows(rows),
    decreases rows.len(),
{
    if count < rows.len() {
        assert(rows.drop_last().take(count) =~= rows.take(count));
        lemma_total_rows_grow(rows.drop_last(), count);
    } else {
        assert(rows.take(count) =~= rows);
    }
}

/// At offset 0 the window ends with the last row of the conversation, so
/// the latest messages are in view, however their text wraps; and no offset
/// starts the window below that place.
pub proof fn lemma_latest_in_view_at_bottom(rows: Seq<usize>, visible: nat, offset: nat)
    ensures
        first_visible_row(rows, visible, offset) <= first_visible_row(rows, visible, 0),
        first_visible_row(rows, visible, 0) + visible >= total_rows(rows),
        total_rows(rows) >= visible ==> first_visible_row(rows, visible, 0) + visible
            == total_rows(rows),
{
    assert(rows.take(rows.len() as int) =~= rows);
    if offset < rows.len() {
        lemma_total_rows_grow(rows, rows.len() - offset);
    }
}

/// At the largest offset that the state allows, the window starts with the
/// first row of the conversation as soon as it can hold the oldest message.
pub proof fn lemma_oldest_in_view_at_top(rows: Seq<usize>, visible: nat)
    requires
        rows.len() > 0,
        visible >= rows[0],
    ensures
        first_visible_row(rows, visible, (rows.len() - 1) as nat) == 0,
{
    assert(rows.take(1).drop_last() =~= Seq::<usize>::empty());
    assert(total_rows(rows.take(1).drop_last()) == 0);
    assert(rows.take(1).last() == rows[0]);
}

/// Where no message wraps, each takes two rows, its text and the empty
/// line, and `count` messages take twice as many rows.
pub proof fn lemma_rows_without_wrapping(rows: Seq<usize>)
    requires
        forall|i: int| 0 <= i < rows.len() ==> rows[i] == 2,
    ensures
        total_rows(rows) == 2 * rows.len(),
    decreases rows.len(),
{
    if rows.len() > 0 {
        lemma_rows_without_wrapping(rows.drop_last());
    }
}

} // verus!
