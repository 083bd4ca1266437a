//! The broadcast bus: one sending side, any number of receivers, each with its
//! own bounded backlog.
//!
//! The channel itself is `tokio::sync::broadcast`. What a receiver is handed,
//! and when it lags, is the channel's business and is not stated here. What is
//! stated is what the sending side does: `Bus` keeps, for the proofs, the list
//! of every event it has handed to the channel.

use tokio::sync::broadcast::{Receiver, Sender};
use vstd::prelude::*;

verus! {

/// `tokio::sync::broadcast::Sender`, carried as it is: nothing is known of
/// what is inside.
#[verifier::external_type_specification]
#[verifier::external_body]
#[verifier::reject_recursive_types(T)]
pub struct ExSender<T>(Sender<T>);

/// `tokio::sync::broadcast::Receiver`, carried as it is: nothing is known of
/// what is inside.
#[verifier::external_type_specification]
#[verifier::external_body]
#[verifier::reject_recursive_types(T)]
pub struct ExReceiver<T>(Receiver<T>);

/// Backlog that each receiver of a service's bus may accumulate before its
/// oldest unread events are dropped.
pub const BUS_CAPACITY: usize = 16;

/// `tokio::sync::broadcast::channel`. The call panics on a capacity of zero or
/// above `usize::MAX / 2`, which the precondition excludes. Nothing is claimed
/// of the pair that comes back.
#[verifier::external_body]
fn open<T: Clone>(capacity: usize) -> (ch: (Sender<T>, Receiver<T>))
    requires
        0 < capacity <= usize::MAX / 2,
{
    tokio::sync::broadcast::channel(capacity)
}

/// `tokio::sync::broadcast::Sender::send`. Whether the call succeeds depends on
/// how many receivers are alive at that moment, so both outcomes are possible
/// on every input. A refusal hands the event back unchanged; an acceptance
/// reports the number of receivers, which is then at least one.
#[verifier::external_body]
fn offer<T>(tx: &Sender<T>, event: T) -> (outcome: Result<usize, T>)
    ensures
        outcome matches Err(back) ==> back == event,
        outcome matches Ok(n) ==> n >= 1,
{
    tx.send(event).map_err(|refused| refused.0)
}

/// `tokio::sync::broadcast::Sender::subscribe`. Nothing is claimed of the
/// receiver that comes back: that it sees the events sent after the call, and
/// none sent before, is tokio's word, which no contract here can repeat for
/// want of a name for what a channel holds. The call panics on a channel that
/// has `usize::MAX / 4` receivers already.
#[verifier::external_body]
fn attach<T>(tx: &Sender<T>) -> (rx: Receiver<T>) {
    tx.subscribe()
}

/// The sending side of a bus, with one receiver of its own that keeps the
/// channel open while no subscriber is attached.
#[verifier::reject_recursive_types(T)]
pub struct Bus<T: View> {
    tx: Sender<T>,
    rx: Receiver<T>,
    offered: Ghost<Seq<T::V>>,
}

impl<T: View + Clone> Bus<T> {
    /// Every event that was handed to the channel through this bus, oldest
    /// first.
    pub closed spec fn offered(&self) -> Seq<T::V> {
        self.offered@
    }

    /// A bus on a channel of its own, with room for `capacity` unread events
    /// per receiver.
    pub fn new(capacity: usize) -> (bus: Self)
        requires
            0 < capacity <= usize::MAX / 2,
        ensures
            bus.offered() == Seq::<T::V>::empty(),
    {
        Bus::over(open::<T>(capacity))
    }

    /// A bus on the channel `ch`.
    pub fn over(ch: (Sender<T>, Receiver<T>)) -> (bus: Self)
        ensures
            bus.offered() == Seq::<T::V>::empty(),
    {
        Bus { tx: ch.0, rx: ch.1, offered: Ghost(Seq::empty()) }
    }

    /// Hands `event` to the channel, for every receiver that is attached at
    /// this moment, and does not wait for any of them. The channel takes the
    /// event and says how many receivers it has, or hands the event back where
    /// it has none.
    pub fn publish(&mut self, event: T) -> (outcome: Result<usize, T>)
        ensures
            final(self).offered() == old(self).offered().push(event@),
            outcome matches Err(back) ==> back == event,
            outcome matches Ok(receivers) ==> receivers >= 1,
    {
        proof {
            self.offered@ = self.offered@.push(event@);
        }
        offer(&self.tx, event)
    }

    /// Attaches a new receiver to the channel.
    pub fn subscribe(&self) -> (receiver: Receiver<T>) {
        attach(&self.tx)
    }
}

} // verus!
