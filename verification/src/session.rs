//! The session: one client connection, from the handshake to the close.
//!
//! A session decides; it performs nothing. Whoever owns the connection reads
//! and writes, turns what happened into an [`Event`], and carries out the
//! [`Action`] that the session answers with.

use crate::envelope::{joined_phrase, left_phrase, ChatMessage, Envelope, MessageType};
use crate::text::{trim, trimmed};
use vstd::prelude::*;

verus! {

/// Where a session stands in its life. It only ever moves forward.
#[derive(Clone, Copy, Debug, PartialEq, Eq, Structural)]
pub enum Phase {
    /// Waiting for the line that holds the display name.
    Handshaking,
    /// Relaying in both directions.
    Active,
    /// The connection or the bus has ended; the leave notice is still owed.
    Closing,
    /// Done. Nothing is published or delivered any more.
    Closed,
}

/// What happened on a session's connection or on its subscription.
#[derive(Debug, PartialEq, Eq)]
pub enum Event {
    /// One read of a line came back with this text, terminator included. The
    /// text is empty when the read yielded no bytes: the peer has closed.
    Read(String),
    /// The read failed.
    ReadFailed,
    /// The subscription delivered this payload.
    Delivery(String),
    /// The subscription fell behind and skipped this many payloads.
    Lagged(u64),
    /// The bus has shut down.
    BusClosed,
    /// Writing a delivery to the client failed.
    WriteFailed,
}

/// What the owner of the connection is to do next.
#[derive(Debug, PartialEq, Eq)]
pub enum Action {
    /// Publish an envelope of this kind and body in the session's name.
    Publish { kind: MessageType, body: String },
    /// Write this text to the client, as it is.
    Forward(String),
    /// Nothing.
    Idle,
}

/// One client connection.
#[derive(Debug)]
pub struct Session {
    phase: Phase,
    identity: String,
}

/// What an `Event` stands for.
pub enum EventView {
    Read(Seq<char>),
    ReadFailed,
    Delivery(Seq<char>),
    Lagged(u64),
    BusClosed,
    WriteFailed,
}

/// What an `Action` stands for.
pub enum ActionView {
    Publish { kind: MessageType, body: Seq<char> },
    Forward(Seq<char>),
    Idle,
}

/// What a `Session` stands for.
pub struct SessionView {
    pub phase: Phase,
    pub identity: Seq<char>,
}

impl View for Event {
    type V = EventView;

    open spec fn view(&self) -> EventView {
        match self {
            Event::Read(line) => EventView::Read(line@),
            Event::ReadFailed => EventView::ReadFailed,
            Event::Delivery(payload) => EventView::Delivery(payload@),
            Event::Lagged(skipped) => EventView::Lagged(*skipped),
            Event::BusClosed => EventView::BusClosed,
            Event::WriteFailed => EventView::WriteFailed,
        }
    }
}

impl View for Action {
    type V = ActionView;

    open spec fn view(&self) -> ActionView {
        match self {
            Action::Publish { kind, body } => ActionView::Publish { kind: *kind, body: body@ },
            Action::Forward(text) => ActionView::Forward(text@),
            Action::Idle => ActionView::Idle,
        }
    }
}

impl View for Session {
    type V = SessionView;

    closed spec fn view(&self) -> SessionView {
        SessionView { phase: self.phase, identity: self.identity@ }
    }
}

/// A session before its handshake: no name yet.
pub open spec fn fresh() -> SessionView {
    SessionView { phase: Phase::Handshaking, identity: Seq::empty() }
}

/// The session `s` in another phase.
pub open spec fn in_phase(s: SessionView, phase: Phase) -> SessionView {
    SessionView { phase, identity: s.identity }
}

/// The notice that a session publishes once its name is known.
pub open spec fn join_notice() -> ActionView {
    ActionView::Publish { kind: MessageType::SystemNotification, body: joined_phrase() }
}

/// The notice that a session publishes when it ends.
pub open spec fn leave_notice() -> ActionView {
    ActionView::Publish { kind: MessageType::SystemNotification, body: left_phrase() }
}

/// The relayed form of a line that a client sent.
pub open spec fn user_line(line: Seq<char>) -> ActionView {
    ActionView::Publish { kind: MessageType::UserMessage, body: trimmed(line) }
}

/// The session after `event`, and what is to be done about it.
///
/// Handshaking: whatever is read, trimmed, becomes the name, and the join
/// notice goes out; a failed read ends the session at once. Active: a line
/// is published, a delivery is forwarded with a line feed behind it, a lag is
/// passed over, and an empty read, a failed read, a failed write or the end of
/// the bus leave the session closing. Closing and closed sessions take no
/// event.
pub open spec fn step_of(s: SessionView, event: EventView) -> (SessionView, ActionView) {
    match s.phase {
        Phase::Handshaking => match event {
            EventView::Read(line) => (
                SessionView { phase: Phase::Active, identity: trimmed(line) },
                join_notice(),
            ),
            EventView::ReadFailed => (in_phase(s, Phase::Closed), ActionView::Idle),
            _ => (s, ActionView::Idle),
        },
        Phase::Active => match event {
            EventView::Read(line) => if line.len() == 0 {
                (in_phase(s, Phase::Closing), ActionView::Idle)
            } else {
                (s, user_line(line))
            },
            EventView::Delivery(payload) => (s, ActionView::Forward(payload.push('\n'))),
            EventView::Lagged(_) => (s, ActionView::Idle),
            EventView::ReadFailed | EventView::BusClosed | EventView::WriteFailed => (
                in_phase(s, Phase::Closing),
                ActionView::Idle,
            ),
        },
        Phase::Closing | Phase::Closed => (s, ActionView::Idle),
    }
}

/// The session after its close, and what is to be done about it: a closing
/// session publishes its leave notice and is closed; any other stays as it is.
pub open spec fn close_of(s: SessionView) -> (SessionView, ActionView) {
    if s.phase == Phase::Closing {
        (in_phase(s, Phase::Closed), leave_notice())
    } else {
        (s, ActionView::Idle)
    }
}

impl Session {
    /// A session for a connection that was just accepted.
    pub fn new() -> (session: Session)
        ensures
            session@ == fresh(),
    {
        Session { phase: Phase::Handshaking, identity: String::new() }
    }

    /// The phase the session is in.
    pub fn phase(&self) -> (phase: Phase)
        ensures
            phase == self@.phase,
    {
        self.phase
    }

    /// The display name: empty until the handshake, fixed from then on.
    pub fn identity(&self) -> (name: &str)
        ensures
            name@ == self@.identity,
    {
        self.identity.as_str()
    }

    /// Takes one event and answers with what is to be done.
    pub fn step(&mut self, event: Event) -> (action: Action)
        ensures
            (final(self)@, action@) == step_of(old(self)@, event@),
    {
        match self.phase {
            Phase::Handshaking => match event {
                Event::Read(line) => {
                    self.identity = trim(line.as_str());
                    self.phase = Phase::Active;
                    Action::Publish {
                        kind: MessageType::SystemNotification,
                        body: String::from_str("joined the chat"),
                    }
                },
                Event::ReadFailed => {
                    self.phase = Phase::Closed;
                    Action::Idle
                },
                _ => Action::Idle,
            },
            Phase::Active => match event {
                Event::Read(line) => {
                    if line.as_str().is_empty() {
                        self.phase = Phase::Closing;
                        Action::Idle
                    } else {
                        Action::Publish {
                            kind: MessageType::UserMessage,
                            body: trim(line.as_str()),
                        }
                    }
                },
                Event::Delivery(payload) => {
                    let ghost delivered = payload@;
                    let mut text = payload;
                    text.append("\n");
                    proof {
                        reveal_strlit("\n");
                        assert(text@ =~= delivered.push('\n'));
                    }
                    Action::Forward(text)
                },
                Event::Lagged(_) => Action::Idle,
                Event::ReadFailed | Event::BusClosed | Event::WriteFailed => {
                    self.phase = Phase::Closing;
                    Action::Idle
                },
            },
            Phase::Closing | Phase::Closed => Action::Idle,
        }
    }

    /// Ends a closing session: the leave notice is to be published.
    pub fn close(&mut self) -> (action: Action)
        ensures
            (final(self)@, action@) == close_of(old(self)@),
    {
        match self.phase {
            Phase::Closing => {
                self.phase = Phase::Closed;
                Action::Publish {
                    kind: MessageType::SystemNotification,
                    body: String::from_str("left the chat"),
                }
            },
            _ => Action::Idle,
        }
    }

    /// The envelope that this session publishes for a `Publish` action.
    pub fn envelope(&self, kind: MessageType, body: String, sent_at: String) -> (m: ChatMessage)
        ensures
            m@ == (Envelope { sender: self@.identity, body: body@, sent_at: sent_at@, kind }),
    {
        ChatMessage::new(self.identity.clone(), body, sent_at, kind)
    }
}

} // verus!
