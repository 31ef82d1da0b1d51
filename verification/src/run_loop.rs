//! The decisions of the application loop: what to draw after each event, and
//! which messages to commit to the terminal's own scrollback.
//!
//! The loop itself belongs to the front end. It blocks for an event, hands it
//! to the event handler, hands the handler's signal to
//! [`LoopState::on_signal`], and carries out the step that comes back.

use vstd::prelude::*;
use crate::app::message_views;
use crate::handlers::AppEvent;
use crate::types::{Message, MessageView};
use crate::ui::chat::{chat_lines, line_views, lines_of, ChatLine, ChatLineView};

verus! {

/// What the loop remembers between events.
#[derive(Debug, Clone, Copy, PartialEq, Eq, Structural)]
pub struct LoopState {
    /// How many messages have been committed above the live viewport. A
    /// committed message is never drawn again.
    pub printed_count: usize,
}

/// What the front end has to do before it blocks for the next event.
#[derive(Debug, PartialEq, Eq)]
pub enum LoopStep {
    /// Leave the loop.
    Exit,
    /// Draw nothing.
    Idle,
    /// Draw the live viewport again.
    Redraw,
    /// Commit these lines above the live viewport, in order and for good,
    /// then draw the live viewport again.
    Commit(Vec<ChatLine>),
}

/// The lines of the messages that are not committed yet when `printed` of
/// them are.
pub open spec fn pending_lines(messages: Seq<MessageView>, printed: nat) -> Seq<ChatLineView> {
    if printed <= messages.len() {
        lines_of(messages.skip(printed as int))
    } else {
        Seq::empty()
    }
}

/// The number of committed messages once all of `count` messages are.
pub open spec fn printed_after(printed: nat, count: nat) -> nat {
    if printed <= count {
        count
    } else {
        printed
    }
}

impl LoopState {
    /// The state of a loop that has committed nothing.
    pub fn new() -> (state: Self)
        ensures
            state.printed_count == 0,
    {
        LoopState { printed_count: 0 }
    }

    /// The step that answers the handler's signal. `Quit` ends the loop,
    /// `Continue` draws nothing, `InputChanged` draws the viewport again.
    /// `MessageSent` commits the lines of every message that was not yet
    /// committed, and counts them as committed.
    pub fn on_signal(&mut self, signal: AppEvent, messages: &Vec<Message>) -> (step: LoopStep)
        ensures
            match signal {
                AppEvent::Quit => step is Exit && *final(self) == *old(self),
                AppEvent::Continue => step is Idle && *final(self) == *old(self),
                AppEvent::InputChanged => step is Redraw && *final(self) == *old(self),
                AppEvent::MessageSent => {
                    &&& step is Commit
                    &&& line_views(step->Commit_0@) == pending_lines(
                        message_views(messages@),
                        old(self).printed_count as nat,
                    )
                    &&& final(self).printed_count == printed_after(
                        old(self).printed_count as nat,
                        messages@.len(),
                    )
                },
            },
    {
        match signal {
            AppEvent::Quit => LoopStep::Exit,
            AppEvent::Continue => LoopStep::Idle,
            AppEvent::InputChanged => LoopStep::Redraw,
            AppEvent::MessageSent => {
                let lines = chat_lines(messages, self.printed_count);
                if self.printed_count < messages.len() {
                    self.printed_count = messages.len();
                }
                LoopStep::Commit(lines)
            },
        }
    }
}

/// Committing is a one-way append. When a conversation has grown from
/// `earlier` to `later`, the lines committed for `earlier` followed by those
/// committed for the rest are the lines of one commit of `later`: every
/// message is committed once, in order.
pub proof fn lemma_commits_add_up(
    earlier: Seq<MessageView>,
    later: Seq<MessageView>,
    printed: nat,
)
    requires
        earlier.is_prefix_of(later),
        printed <= earlier.len(),
    ensures
        pending_lines(earlier, printed) + pending_lines(later, earlier.len()) == pending_lines(
            later,
            printed,
        ),
        pending_lines(later, later.len()).len() == 0,
{
    let first = pending_lines(earlier, printed);
    let second = pending_lines(later, earlier.len());
    let whole = pending_lines(later, printed);
    assert(first.len() == 2 * (earlier.len() - printed));
    assert(second.len() == 2 * (later.len() - earlier.len()));
    assert(whole.len() == 2 * (later.len() - printed));
    assert forall|k: int| 0 <= k < whole.len() implies #[trigger] (first + second)[k] == whole[k] by {
        if k < first.len() {
            assert(earlier[printed + k / 2] == later[printed + k / 2]);
        } else {
            let j = k - first.len();
            assert(j / 2 == k / 2 - (earlier.len() - printed));
            assert(j % 2 == k % 2);
        }
    }
    assert(first + second =~= whole);
}

} // verus!
