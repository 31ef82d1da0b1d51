//! The application state: the input buffer, the conversation, the keyboard
//! mode, the quit timer and the scroll offset, with the operations that a
//! keystroke can ask for.

use vstd::prelude::*;
use crate::state::InputMode;
use crate::text::{is_blank, text_is_blank};
use crate::types::{Message, MessageRole, MessageView};

verus! {

/// The state of the application. It is made once, changed in place by the
/// event handler, and read by the renderer.
pub struct App {
    /// What the user has typed and not yet sent.
    pub input: String,
    /// The conversation, oldest message first. Messages are only ever added.
    pub messages: Vec<Message>,
    /// The active keyboard mode.
    pub input_mode: InputMode,
    /// When Ctrl+C was last pressed without quitting, in nanoseconds on the
    /// caller's monotonic clock.
    pub last_ctrl_c: Option<u64>,
    /// How many messages the chat window is shifted up from the latest one.
    pub scroll_offset: usize,
}

/// The state as mathematics: text as sequences of characters, messages
/// without their timestamps.
pub struct AppView {
    pub input: Seq<char>,
    pub messages: Seq<MessageView>,
    pub input_mode: InputMode,
    pub last_ctrl_c: Option<u64>,
    pub scroll_offset: nat,
}

/// The views of the messages, in order.
pub open spec fn message_views(messages: Seq<Message>) -> Seq<MessageView> {
    messages.map_values(|m: Message| m@)
}

impl View for App {
    type V = AppView;

    open spec fn view(&self) -> AppView {
        AppView {
            input: self.input@,
            messages: message_views(self.messages@),
            input_mode: self.input_mode,
            last_ctrl_c: self.last_ctrl_c,
            scroll_offset: self.scroll_offset as nat,
        }
    }
}

/// Every message of `before` stands unchanged, timestamp included, at its
/// place in `after`: messages were at most added at the end.
pub open spec fn history_kept(before: Seq<Message>, after: Seq<Message>) -> bool {
    &&& before.len() <= after.len()
    &&& forall|i: int| 0 <= i < before.len() ==> after[i] == before[i]
}

/// The reply that stands in for the assistant's answer to `text`.
pub open spec fn placeholder_reply(text: Seq<char>) -> Seq<char> {
    "I received: '"@ + text + "'"@
}

impl AppView {
    /// The state at startup: nothing typed, nothing said, ready to type.
    pub open spec fn initial() -> AppView {
        AppView {
            input: Seq::empty(),
            messages: Seq::empty(),
            input_mode: InputMode::Editing,
            last_ctrl_c: None,
            scroll_offset: 0,
        }
    }

    /// The largest scroll offset: the one that shows the oldest message.
    pub open spec fn max_scroll(self) -> nat {
        if self.messages.len() == 0 {
            0
        } else {
            (self.messages.len() - 1) as nat
        }
    }

    /// The scroll offset points at a message, or is 0 when there is none.
    pub open spec fn wf(self) -> bool {
        self.scroll_offset <= self.max_scroll()
    }

    /// The same state with another scroll offset.
    pub open spec fn with_scroll(self, scroll_offset: nat) -> AppView {
        AppView { scroll_offset, ..self }
    }

    /// Shifted up by `amount` messages, but not past the oldest.
    pub open spec fn scrolled_up(self, amount: nat) -> AppView {
        if self.scroll_offset + amount <= self.max_scroll() {
            self.with_scroll(self.scroll_offset + amount)
        } else {
            self.with_scroll(self.max_scroll())
        }
    }

    /// Shifted down by `amount` messages, but not past the latest.
    pub open spec fn scrolled_down(self, amount: nat) -> AppView {
        if self.scroll_offset >= amount {
            self.with_scroll((self.scroll_offset - amount) as nat)
        } else {
            self.with_scroll(0)
        }
    }

    /// The input buffer is emptied. If it held more than white space, its
    /// text becomes a user message, the placeholder reply follows it, and
    /// the chat window returns to the latest message.
    pub open spec fn submitted(self) -> AppView {
        if is_blank(self.input) {
            AppView { input: Seq::empty(), ..self }
        } else {
            AppView {
                input: Seq::empty(),
                messages: self.messages.push(
                    MessageView { role: MessageRole::User, content: self.input },
                ).push(
                    MessageView {
                        role: MessageRole::Assistant,
                        content: placeholder_reply(self.input),
                    },
                ),
                scroll_offset: 0,
                ..self
            }
        }
    }
}

impl Default for App {
    fn default() -> (app: Self)
        ensures
            app@ == AppView::initial(),
            app@.wf(),
    {
        let app = App {
            input: String::new(),
            messages: Vec::new(),
            input_mode: InputMode::Editing,
            last_ctrl_c: None,
            scroll_offset: 0,
        };
        assert(app@.messages =~= Seq::empty());
        app
    }
}

/// The placeholder reply to `text`.
fn reply_to(text: &str) -> (reply: String)
    ensures
        reply@ == placeholder_reply(text@),
{
    let mut reply = String::from_str("I received: '");
    reply.append(text);
    reply.append("'");
    reply
}

impl App {
    /// Sends what the input buffer holds: see [`AppView::submitted`].
    pub fn send_message(&mut self)
        ensures
            final(self)@ == old(self)@.submitted(),
            old(self)@.wf() ==> final(self)@.wf(),
            history_kept(old(self).messages@, final(self).messages@),
    {
        let mut text = String::new();
        std::mem::swap(&mut self.input, &mut text);
        if !text_is_blank(text.as_str()) {
            let reply = reply_to(text.as_str());
            self.messages.push(Message::user(text));
            self.messages.push(Message::assistant(reply));
            self.scroll_offset = 0;
            assert(self@.messages =~= old(self)@.submitted().messages);
        }
    }

    /// Shifts the chat window up by `amount` messages, stopping at the
    /// oldest one.
    pub fn scroll_up(&mut self, amount: usize)
        ensures
            final(self)@ == old(self)@.scrolled_up(amount as nat),
            final(self)@.wf(),
            final(self).messages@ == old(self).messages@,
    {
        let max_offset = self.messages.len().saturating_sub(1);
        let wanted = self.scroll_offset.saturating_add(amount);
        self.scroll_offset = if wanted <= max_offset { wanted } else { max_offset };
    }

    /// Shifts the chat window down by `amount` messages, stopping at the
    /// latest one.
    pub fn scroll_down(&mut self, amount: usize)
        ensures
            final(self)@ == old(self)@.scrolled_down(amount as nat),
            old(self)@.wf() ==> final(self)@.wf(),
            final(self).messages@ == old(self).messages@,
    {
        self.scroll_offset = self.scroll_offset.saturating_sub(amount);
    }

    /// Returns the chat window to the latest message.
    pub fn scroll_to_bottom(&mut self)
        ensures
            final(self)@ == old(self)@.with_scroll(0),
            final(self)@.wf(),
            final(self).messages@ == old(self).messages@,
    {
        self.scroll_offset = 0;
    }

    /// Shifts the chat window up to the oldest message.
    pub fn scroll_to_top(&mut self)
        ensures
            final(self)@ == old(self)@.with_scroll(old(self)@.max_scroll()),
            final(self)@.wf(),
            final(self).messages@ == old(self).messages@,
    {
        self.scroll_offset = self.messages.len().saturating_sub(1);
    }
}

} // verus!
