//! Chat messages and the class of their sender.

use vstd::prelude::*;
use std::time::SystemTime;

verus! {

/// `std::time::SystemTime`, a point on the wall clock. Nothing is known of a
/// value of it; it is only carried along with a message.
#[verifier::external_type_specification]
#[verifier::external_body]
pub struct ExSystemTime(SystemTime);

/// Who sent a message.
#[derive(Debug, Clone, Copy, PartialEq, Eq, Structural)]
pub enum MessageRole {
    /// The person at the keyboard.
    User,
    /// The model that answers.
    Assistant,
    /// The application itself: errors and notices.
    System,
}

/// One line of the conversation. It is never changed once made.
#[derive(Debug)]
pub struct Message {
    /// The text of the message.
    pub content: String,
    /// Who sent it.
    pub role: MessageRole,
    /// When it was made.
    pub timestamp: SystemTime,
}

/// What a message says and who said it: a message without its timestamp.
pub struct MessageView {
    pub role: MessageRole,
    pub content: Seq<char>,
}

impl View for Message {
    type V = MessageView;

    open spec fn view(&self) -> MessageView {
        MessageView { role: self.role, content: self.content@ }
    }
}

impl Clone for Message {
    /// A copy with the same text, role and timestamp.
    fn clone(&self) -> (copy: Self)
        ensures
            copy@ == self@,
            copy.timestamp == self.timestamp,
    {
        Message { content: self.content.clone(), role: self.role, timestamp: self.timestamp }
    }
}

/// Calls `SystemTime::now`, which reads the wall clock. The contract claims
/// nothing of the value: it differs from call to call.
#[verifier::external_body]
fn wall_clock_now() -> (now: SystemTime) {
    SystemTime::now()
}

impl Message {
    /// A message of the given role that was made at `now`.
    pub fn stamped(content: String, role: MessageRole, now: SystemTime) -> (message: Self)
        ensures
            message@ == (MessageView { role, content: content@ }),
            message.timestamp == now,
    {
        Message { content, role, timestamp: now }
    }

    /// A message from the user, stamped with the current time.
    pub fn user(content: String) -> (message: Self)
        ensures
            message@ == (MessageView { role: MessageRole::User, content: content@ }),
    {
        Message::stamped(content, MessageRole::User, wall_clock_now())
    }

    /// A message from the assistant, stamped with the current time.
    pub fn assistant(content: String) -> (message: Self)
        ensures
            message@ == (MessageView { role: MessageRole::Assistant, content: content@ }),
    {
        Message::stamped(content, MessageRole::Assistant, wall_clock_now())
    }

    /// A message from the application, stamped with the current time.
    pub fn system(content: String) -> (message: Self)
        ensures
            message@ == (MessageView { role: MessageRole::System, content: content@ }),
    {
        Message::stamped(content, MessageRole::System, wall_clock_now())
    }
}

} // verus!
