//! A room's fan-out channel: one `Broadcaster` side that publishes frames,
//! any number of `Subscription`s that read them. Publishing never waits on
//! a reader: a reader that falls behind by more than the capacity skips the
//! oldest frames and is told how many it missed.

use vstd::prelude::*;
use crate::text::{ChatMessage, frame_of};
use tokio::sync::broadcast::{Receiver, Sender};

verus! {

#[verifier::external_type_specification]
#[verifier::external_body]
#[verifier::reject_recursive_types(T)]
pub struct ExSender<T>(Sender<T>);

#[verifier::external_type_specification]
#[verifier::external_body]
#[verifier::reject_recursive_types(T)]
pub struct ExReceiver<T>(Receiver<T>);

/// Relies on tokio's `Sender::clone`: a further sending handle of the same
/// channel. Nothing is stated of it.
pub assume_specification<T>[ <Sender<T> as Clone>::clone ](s: &Sender<T>) -> Sender<T>;

/// How many frames a room's channel keeps for readers that lag behind,
/// unless told otherwise. The channel rounds a capacity up to the next
/// power of two.
pub const DEFAULT_CAPACITY: usize = 100;

/// A capacity that a channel can be made with: at least one frame, at most
/// half the address space.
pub open spec fn valid_capacity(capacity: usize) -> bool {
    0 < capacity <= usize::MAX / 2
}

/// Relies on tokio's `Sender::new`, which panics on a capacity of zero or
/// above `usize::MAX >> 1`; those are left out. The channel starts with no
/// reader and keeps the capacity rounded up to a power of two.
#[verifier::external_body]
fn new_sender(capacity: usize) -> (r: Sender<String>)
    requires
        valid_capacity(capacity),
{
    Sender::new(capacity)
}

/// Relies on tokio's `Sender::send`: it fails, handing the value back,
/// when the channel has no reader, and otherwise returns how many readers
/// the value was queued for.
#[verifier::external_body]
fn send_frame(tx: &Sender<String>, frame: String) -> (r: Option<usize>)
    ensures
        r matches Some(n) ==> n > 0,
{
    tx.send(frame).ok()
}

/// Relies on tokio's `Sender::subscribe`: a reader of the frames sent after
/// this call. It panics only once `usize::MAX >> 2` readers are alive at the
/// same time.
#[verifier::external_body]
fn subscribe_receiver(tx: &Sender<String>) -> (r: Receiver<String>) {
    tx.subscribe()
}

/// The publishing side of one room's channel.
pub struct Broadcaster {
    room: u128,
    tx: Sender<String>,
}

/// A reader of one room's channel, from the moment it subscribed.
pub struct Subscription {
    room: u128,
    rx: Receiver<String>,
}

impl Broadcaster {
    /// A channel for `room` that keeps up to `capacity` frames for readers
    /// that lag behind.
    pub fn new(room: u128, capacity: usize) -> (r: Broadcaster)
        requires
            valid_capacity(capacity),
        ensures
            r.room() == room,
    {
        Broadcaster { room, tx: new_sender(capacity) }
    }

    /// The room this channel belongs to.
    pub closed spec fn room(&self) -> u128 {
        self.room
    }

    /// The room this channel belongs to.
    pub fn room_id(&self) -> (r: u128)
        ensures
            r == self.room(),
    {
        self.room
    }

    /// A further handle on the same channel.
    pub fn handle(&self) -> (r: Broadcaster)
        ensures
            r.room() == self.room(),
    {
        Broadcaster { room: self.room, tx: self.tx.clone() }
    }

    /// A new reader that sees every frame published from now on.
    pub fn subscribe(&self) -> (r: Subscription)
        ensures
            r.room() == self.room(),
    {
        Subscription { room: self.room, rx: subscribe_receiver(&self.tx) }
    }

    /// Publishes a message as its frame text, without waiting on any reader.
    /// Returns how many readers it was queued for; none when the room has no
    /// reader.
    pub fn publish(&self, msg: &ChatMessage) -> (r: Option<usize>)
        ensures
            r matches Some(n) ==> n > 0,
    {
        let frame = msg.frame();
        send_frame(&self.tx, frame)
    }
}

impl Subscription {
    /// The room this reader listens to.
    pub closed spec fn room(&self) -> u128 {
        self.room
    }

    /// The room this reader listens to.
    pub fn room_id(&self) -> (r: u128)
        ensures
            r == self.room(),
    {
        self.room
    }

    /// The underlying channel reader, for the task that waits on it.
    pub fn into_receiver(self) -> Receiver<String> {
        self.rx
    }
}

} // verus!
