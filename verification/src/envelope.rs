//! The envelope: one chat event as it is handed to the bus.

use vstd::prelude::*;

verus! {

/// The two kinds of envelope. There are no others.
#[derive(Clone, Copy, Debug, PartialEq, Eq, Structural)]
pub enum MessageType {
    /// A line that a client sent.
    UserMessage,
    /// A notice that the relay itself issues when a client joins or leaves.
    SystemNotification,
}

/// One chat event.
#[derive(Clone, Debug, PartialEq, Eq)]
pub struct ChatMessage {
    /// Display name of the session the event belongs to.
    pub username: String,
    /// The text: a client's line, or the fixed phrase of a notice.
    pub content: String,
    /// Local wall-clock time at which the envelope was made, as `HH:MM:SS`.
    pub timestamp: String,
    /// Whether a client or the relay speaks.
    pub message_type: MessageType,
}

/// What a `ChatMessage` stands for.
pub struct Envelope {
    pub sender: Seq<char>,
    pub body: Seq<char>,
    pub sent_at: Seq<char>,
    pub kind: MessageType,
}

impl View for ChatMessage {
    type V = Envelope;

    open spec fn view(&self) -> Envelope {
        Envelope {
            sender: self.username@,
            body: self.content@,
            sent_at: self.timestamp@,
            kind: self.message_type,
        }
    }
}

/// Body of the notice that announces a session.
pub open spec fn joined_phrase() -> Seq<char> {
    "joined the chat"@
}

/// Body of the notice that ends a session.
pub open spec fn left_phrase() -> Seq<char> {
    "left the chat"@
}

impl ChatMessage {
    /// An envelope of the given kind.
    pub fn new(
        username: String,
        content: String,
        timestamp: String,
        message_type: MessageType,
    ) -> (m: ChatMessage)
        ensures
            m@ == (Envelope {
                sender: username@,
                body: content@,
                sent_at: timestamp@,
                kind: message_type,
            }),
    {
        ChatMessage { username, content, timestamp, message_type }
    }
}

} // verus!
