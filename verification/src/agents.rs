//! The language model behind the chat. No model is connected yet: both
//! operations answer with a fixed text.

use vstd::prelude::*;

verus! {

/// What [`Agent::send_message`] answers while no model is connected.
pub const PENDING_REPLY: &'static str = "RIG integration pending...";

/// What [`Agent::stream_message`] answers while no model is connected.
pub const PENDING_STREAM: &'static str = "Streaming not yet implemented";

/// The language model that answers the user.
pub struct Agent {}

impl Agent {
    /// An agent with no model connected.
    pub fn new() -> (agent: Self)
        ensures
            agent == (Agent {  }),
    {
        Agent {  }
    }

    /// Sends the message to the model and returns its reply; the error is
    /// the reason why there is none. While no model is connected, the reply
    /// is [`PENDING_REPLY`] whatever the message.
    pub fn send_message(&self, message: &str) -> (reply: Result<String, String>)
        ensures
            reply is Ok,
            reply->Ok_0@ == PENDING_REPLY@,
    {
        Ok(String::from_str(PENDING_REPLY))
    }

    /// Streams the model's reply to the message and returns it whole; the
    /// error is the reason why there is none. While no model is connected,
    /// the reply is [`PENDING_STREAM`] whatever the message.
    pub fn stream_message(&self, message: &str) -> (reply: Result<String, String>)
        ensures
            reply is Ok,
            reply->Ok_0@ == PENDING_STREAM@,
    {
        Ok(String::from_str(PENDING_STREAM))
    }
}

} // verus!
