//! Carrying out what a session decides: the clock is read, the envelope is
//! encoded, and the payload goes to the bus.

use crate::bus::{Bus, Publication};
use crate::clock::{is_clock_text, local_time_text};
use crate::codec::{encode, lemma_wire_single_line, wire, EncodeError};
use crate::envelope::{ChatMessage, Envelope, MessageType};
use crate::session::{
    close_of, step_of, Action, ActionView, Event, EventView, Phase, Session, SessionView,
};
use vstd::prelude::*;

verus! {

/// What an action asks of the outside, once the envelope is made.
#[derive(Debug, PartialEq, Eq)]
pub enum Outgoing {
    /// This payload is to be handed to the bus.
    Payload(String),
    /// The encoder refused the envelope, which is dropped. It refuses none:
    /// the case stands so that a refusal would cost the envelope and not the
    /// session.
    Dropped(EncodeError),
    /// This text is to be written to the client.
    Write(String),
    /// There is nothing to do.
    Nothing,
}

/// What was done about an action.
#[derive(Debug, PartialEq, Eq)]
pub enum Performed {
    /// The envelope was encoded and handed to the bus, which answered so.
    Published(Publication),
    /// The encoder refused the envelope, which was dropped. It refuses none:
    /// the case stands so that a refusal would cost the envelope and not the
    /// session.
    Dropped(EncodeError),
    /// This text is to be written to the client.
    Write(String),
    /// There was nothing to do.
    Nothing,
}

/// Whether `payload` is the wire form of an envelope of this kind and body
/// from `sender`, made at some time of day.
pub open spec fn is_payload_of(
    payload: Seq<char>,
    sender: Seq<char>,
    kind: MessageType,
    body: Seq<char>,
) -> bool {
    exists|sent_at: Seq<char>|
        is_clock_text(sent_at) && payload == #[trigger] wire(
            Envelope { sender, body, sent_at, kind },
        )
}

/// Whether `out` is what `action` asks of the outside when `sender` is the
/// session's name: for a publication the payload of its envelope; for a text
/// to forward that text; else nothing.
pub open spec fn answers(out: Outgoing, sender: Seq<char>, action: ActionView) -> bool {
    match action {
        ActionView::Publish { kind, body } => out matches Outgoing::Payload(payload)
            && is_payload_of(payload@, sender, kind, body),
        ActionView::Forward(text) => out matches Outgoing::Write(line) && line@ == text,
        ActionView::Idle => out is Nothing,
    }
}

/// Whether `done` is what carrying out `action` can come to when `sender` is
/// the session's name: a publication is handed to the bus, and is queued
/// there for at least one subscriber or comes back unheard as the payload of
/// its envelope; a text to forward is handed on; else nothing.
pub open spec fn carries_out(done: Performed, sender: Seq<char>, action: ActionView) -> bool {
    match action {
        ActionView::Publish { kind, body } => {
            &&& done is Published
            &&& done matches Performed::Published(Publication::Queued(n)) ==> n >= 1
            &&& done matches Performed::Published(Publication::Unheard(back)) ==> is_payload_of(
                back@,
                sender,
                kind,
                body,
            )
        },
        ActionView::Forward(text) => done matches Performed::Write(line) && line@ == text,
        ActionView::Idle => done is Nothing,
    }
}

/// The envelope that `session` publishes now.
pub fn stamp(session: &Session, kind: MessageType, body: String) -> (m: ChatMessage)
    ensures
        m@.sender == session@.identity,
        m@.kind == kind,
        m@.body == body@,
        is_clock_text(m@.sent_at),
{
    session.envelope(kind, body, local_time_text())
}

/// Makes what `action` asks of the outside: a publication is stamped with
/// the time and encoded.
pub fn outgoing(session: &Session, action: Action) -> (out: Outgoing)
    ensures
        answers(out, session@.identity, action@),
{
    match action {
        Action::Publish { kind, body } => {
            let m = stamp(session, kind, body);
            proof {
                assert(m@ == Envelope {
                    sender: session@.identity,
                    body: m@.body,
                    sent_at: m@.sent_at,
                    kind,
                });
            }
            match encode(&m) {
                Ok(payload) => Outgoing::Payload(payload),
                Err(e) => Outgoing::Dropped(e),
            }
        },
        Action::Forward(text) => Outgoing::Write(text),
        Action::Idle => Outgoing::Nothing,
    }
}

/// Carries out `action` for `session`. A payload goes to the bus, which
/// never waits; that nobody is subscribed is reported and is no error of the
/// session.
pub fn perform(session: &Session, action: Action, bus: &Bus) -> (done: Performed)
    ensures
        carries_out(done, session@.identity, action@),
{
    match outgoing(session, action) {
        Outgoing::Payload(payload) => Performed::Published(bus.publish(payload)),
        Outgoing::Dropped(e) => Performed::Dropped(e),
        Outgoing::Write(line) => Performed::Write(line),
        Outgoing::Nothing => Performed::Nothing,
    }
}

/// Takes one event for `session` and carries out what the session decides.
pub fn advance(session: &mut Session, event: Event, bus: &Bus) -> (done: Performed)
    ensures
        final(session)@ == step_of(old(session)@, event@).0,
        carries_out(done, final(session)@.identity, step_of(old(session)@, event@).1),
{
    let action = session.step(event);
    perform(session, action, bus)
}

/// Ends a closing session and publishes its leave notice.
pub fn depart(session: &mut Session, bus: &Bus) -> (done: Performed)
    ensures
        final(session)@ == close_of(old(session)@).0,
        carries_out(done, final(session)@.identity, close_of(old(session)@).1),
{
    let action = session.close();
    perform(session, action, bus)
}

/// What is forwarded for a payload is one line. A payload that some session
/// handed to the bus holds no line feed, so the text that an active session
/// forwards for it, the payload and a line feed, ends with the only line feed
/// in it.
pub proof fn lemma_forwarded_is_one_line(
    receiver: SessionView,
    payload: Seq<char>,
    sender: Seq<char>,
    kind: MessageType,
    body: Seq<char>,
)
    requires
        receiver.phase == Phase::Active,
        is_payload_of(payload, sender, kind, body),
    ensures
        step_of(receiver, EventView::Delivery(payload)).1 == ActionView::Forward(
            payload.push('\n'),
        ),
        forall|i: int|
            0 <= i < payload.push('\n').len() ==> (#[trigger] payload.push('\n')[i] == '\n' <==> i
                == payload.len()),
{
    let sent_at = choose|sent_at: Seq<char>|
        is_clock_text(sent_at) && payload == #[trigger] wire(
            Envelope { sender, body, sent_at, kind },
        );
    lemma_wire_single_line(Envelope { sender, body, sent_at, kind });
    let line = payload.push('\n');
    assert forall|i: int| 0 <= i < line.len() implies (#[trigger] line[i] == '\n' <==> i
        == payload.len()) by {
        if i < payload.len() {
            assert(line[i] == payload[i]);
        }
    }
}

} // verus!
