//! The fan-out bus: one broadcast channel that every session publishes to and
//! listens on.

use tokio::sync::broadcast::{Receiver, Sender};
use vstd::prelude::*;

verus! {

/// The sending half of a tokio broadcast channel.
#[verifier::external_type_specification]
#[verifier::external_body]
#[verifier::reject_recursive_types(T)]
pub struct ExSender<T>(Sender<T>);

/// The receiving half of a tokio broadcast channel.
#[verifier::external_type_specification]
#[verifier::external_body]
#[verifier::reject_recursive_types(T)]
pub struct ExReceiver<T>(Receiver<T>);

/// The capacity that the relay's bus is asked for.
pub const CAPACITY: usize = 100;

/// The channel that `sender` sends on, as a number that stands for it: the
/// same for every handle on that channel, and for as long as the handle lives.
pub uninterp spec fn sender_channel(sender: Sender<String>) -> int;

/// The channel that `receiver` listens on, as the number that stands for it.
pub uninterp spec fn receiver_channel(receiver: Receiver<String>) -> int;

/// Whether a bus can be made with room for `capacity` messages.
pub open spec fn valid_capacity(capacity: usize) -> bool {
    0 < capacity <= usize::MAX / 2
}

/// What became of a payload handed to the bus.
#[derive(Debug, PartialEq, Eq)]
pub enum Publication {
    /// The payload was queued for this many subscribers, at least one.
    Queued(usize),
    /// Nobody was subscribed; the payload comes back.
    Unheard(String),
}

/// A handle on the bus. Handles made from one another share one channel.
pub struct Bus {
    sender: Sender<String>,
    capacity: usize,
}

/// What a `Bus` stands for: its channel, and the capacity asked for.
pub struct BusView {
    pub channel: int,
    pub capacity: usize,
}

impl View for Bus {
    type V = BusView;

    closed spec fn view(&self) -> BusView {
        BusView { channel: sender_channel(self.sender), capacity: self.capacity }
    }
}

/// Calls `tokio::sync::broadcast::channel` and keeps the sender; the receiver
/// that comes with it is dropped. tokio panics on a capacity of zero or above
/// `usize::MAX / 2`.
#[verifier::external_body]
fn channel_sender(capacity: usize) -> (sender: Sender<String>)
    requires
        valid_capacity(capacity),
{
    tokio::sync::broadcast::channel::<String>(capacity).0
}

/// Calls `Sender::clone`: another handle on the same channel.
#[verifier::external_body]
fn sender_clone(sender: &Sender<String>) -> (other: Sender<String>)
    ensures
        sender_channel(other) == sender_channel(*sender),
{
    sender.clone()
}

/// Calls `Sender::subscribe`: a receiver on the sender's channel, for what is
/// sent from now on. tokio panics when the channel already has
/// `usize::MAX / 4` receivers.
#[verifier::external_body]
fn sender_subscribe(sender: &Sender<String>) -> (receiver: Receiver<String>)
    ensures
        receiver_channel(receiver) == sender_channel(*sender),
{
    sender.subscribe()
}

/// Calls `Sender::send`. With at least one receiver subscribed tokio queues
/// the payload and returns their number; with none it hands the payload back.
/// It never waits.
#[verifier::external_body]
fn sender_send(sender: &Sender<String>, payload: String) -> (r: Result<usize, String>)
    ensures
        r matches Ok(n) ==> n >= 1,
        r matches Err(p) ==> p@ == payload@,
{
    match sender.send(payload) {
        Ok(n) => Ok(n),
        Err(e) => Err(e.0),
    }
}

impl Bus {
    /// A new bus, with no subscriber yet.
    pub fn new(capacity: usize) -> (bus: Bus)
        requires
            valid_capacity(capacity),
        ensures
            bus@.capacity == capacity,
    {
        Bus { sender: channel_sender(capacity), capacity }
    }

    /// The capacity that the bus was asked for.
    pub fn capacity(&self) -> (c: usize)
        ensures
            c == self@.capacity,
    {
        self.capacity
    }

    /// Another handle on the same bus.
    pub fn handle(&self) -> (other: Bus)
        ensures
            other@ == self@,
    {
        Bus { sender: sender_clone(&self.sender), capacity: self.capacity }
    }

    /// Registers a new delivery endpoint on this bus's channel. It receives
    /// what is published after this call.
    pub fn subscribe(&self) -> (receiver: Receiver<String>)
        ensures
            receiver_channel(receiver) == self@.channel,
    {
        sender_subscribe(&self.sender)
    }

    /// Hands `payload` to every subscriber, without waiting for any of them.
    pub fn publish(&self, payload: String) -> (p: Publication)
        ensures
            p matches Publication::Queued(n) ==> n >= 1,
            p matches Publication::Unheard(back) ==> back@ == payload@,
    {
        match sender_send(&self.sender, payload) {
            Ok(n) => Publication::Queued(n),
            Err(back) => Publication::Unheard(back),
        }
    }
}

} // verus!
