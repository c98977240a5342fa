//! The accept loop's policy, and what a new connection is given.

use crate::bus::{receiver_channel, Bus};
use crate::session::{fresh, Session};
use tokio::sync::broadcast::Receiver;
use vstd::prelude::*;

verus! {

/// What one attempt to accept a connection came to.
#[derive(Clone, Copy, Debug, PartialEq, Eq, Structural)]
pub enum Accept {
    /// A client connected.
    Connection,
    /// This attempt failed; the listening socket is still good.
    Failed,
    /// The listening socket itself is gone.
    ListenerLost,
}

/// What the accept loop does after an attempt.
#[derive(Clone, Copy, Debug, PartialEq, Eq, Structural)]
pub enum Verdict {
    /// Start a session for the new connection, then accept again.
    Spawn,
    /// Accept again.
    Retry,
    /// Leave the loop.
    Stop,
}

/// The accept loop. Once stopped it stays stopped.
#[derive(Clone, Copy, Debug, PartialEq, Eq, Structural)]
pub struct Listener {
    pub listening: bool,
}

/// A loop that listens.
pub open spec fn ready() -> Listener {
    Listener { listening: true }
}

/// The loop after an attempt, and what it does about it: a stopped loop
/// stops; a listening one spawns for a connection, retries after a failed
/// attempt, and stops only when the listening socket is gone.
pub open spec fn accept_of(l: Listener, outcome: Accept) -> (Listener, Verdict) {
    if !l.listening {
        (l, Verdict::Stop)
    } else {
        match outcome {
            Accept::Connection => (l, Verdict::Spawn),
            Accept::Failed => (l, Verdict::Retry),
            Accept::ListenerLost => (Listener { listening: false }, Verdict::Stop),
        }
    }
}

/// The loop after all of `outcomes`, in order.
pub open spec fn after(l: Listener, outcomes: Seq<Accept>) -> Listener
    decreases outcomes.len(),
{
    if outcomes.len() == 0 {
        l
    } else {
        accept_of(after(l, outcomes.drop_last()), outcomes.last()).0
    }
}

/// Whether `code`, an error number as Linux gives it, says that the
/// descriptor is no listening socket any more: EBADF, EINVAL or ENOTSOCK.
pub open spec fn listener_gone(code: i32) -> bool {
    code == 9 || code == 22 || code == 88
}

/// What a failed attempt came to, going by the error number of the system,
/// if it gave one. Only a socket that is gone is lost; whatever else went
/// wrong, the attempt failed and the next may succeed.
pub fn failure_of(code: Option<i32>) -> (outcome: Accept)
    ensures
        outcome == (if code matches Some(c) && listener_gone(c) {
            Accept::ListenerLost
        } else {
            Accept::Failed
        }),
{
    match code {
        Some(c) => {
            if c == 9 || c == 22 || c == 88 {
                Accept::ListenerLost
            } else {
                Accept::Failed
            }
        },
        None => Accept::Failed,
    }
}

impl Listener {
    /// A loop that listens.
    pub fn new() -> (l: Listener)
        ensures
            l == ready(),
    {
        Listener { listening: true }
    }

    /// Takes the outcome of one attempt and says what to do next.
    pub fn step(&mut self, outcome: Accept) -> (verdict: Verdict)
        ensures
            (*final(self), verdict) == accept_of(*old(self), outcome),
    {
        if !self.listening {
            return Verdict::Stop;
        }
        match outcome {
            Accept::Connection => Verdict::Spawn,
            Accept::Failed => Verdict::Retry,
            Accept::ListenerLost => {
                self.listening = false;
                Verdict::Stop
            },
        }
    }
}

/// What a new connection is given: a session of its own, a handle on the bus
/// to publish with, and a subscription on the same bus to listen on.
pub struct Seat {
    pub session: Session,
    pub bus: Bus,
    pub inbox: Receiver<String>,
}

/// Wires a new connection to `bus`. The subscription is made here, before
/// the session does anything.
pub fn seat(bus: &Bus) -> (s: Seat)
    ensures
        s.session@ == fresh(),
        s.bus@ == bus@,
        receiver_channel(s.inbox) == bus@.channel,
{
    let handle = bus.handle();
    let inbox = handle.subscribe();
    Seat { session: Session::new(), bus: handle, inbox }
}

/// Failed attempts do not end the loop. After any run of attempts in which
/// the listening socket was never lost, the loop still listens, and the next
/// connection gets its session.
pub proof fn lemma_resilient(outcomes: Seq<Accept>)
    requires
        forall|i: int| 0 <= i < outcomes.len() ==> outcomes[i] != Accept::ListenerLost,
    ensures
        after(ready(), outcomes).listening,
        accept_of(after(ready(), outcomes), Accept::Connection).1 == Verdict::Spawn,
    decreases outcomes.len(),
{
    if outcomes.len() > 0 {
        lemma_resilient(outcomes.drop_last());
    }
}

/// Only the loss of the listening socket ends the loop: a listening loop
/// that takes any other outcome still listens.
pub proof fn lemma_stops_only_when_lost(l: Listener, outcome: Accept)
    requires
        l.listening,
    ensures
        accept_of(l, outcome).0.listening <==> outcome != Accept::ListenerLost,
        accept_of(l, outcome).1 == Verdict::Stop <==> outcome == Accept::ListenerLost,
{
}

} // verus!
