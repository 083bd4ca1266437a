//! One subscriber's side of a bus, as a state machine.
//!
//! A subscription alternates between two waits: for the next event of the bus,
//! and, once an event has passed the subscriber's predicate, for the client
//! queue to take it. Whoever runs the subscription performs the waits and
//! reports what came of them; the machine decides what to do next.

use vstd::prelude::*;

verus! {

/// How many events a client queue holds before the subscription has to wait
/// for the client.
pub const CLIENT_QUEUE_CAPACITY: usize = 4;

/// Where a subscription stands.
#[derive(Debug, Clone, Copy, PartialEq, Eq, Structural)]
pub enum SubscriptionState {
    /// Waiting for the bus.
    Receiving,
    /// Waiting for the client queue to take an event.
    Writing,
    /// Over: the bus closed or the client went away.
    Finished,
}

/// What a wait ended with.
#[derive(Debug, PartialEq, Eq)]
pub enum SubscriptionEvent<B> {
    /// The bus delivered its next event.
    Received(B),
    /// The bus dropped this many events that the subscriber had not read yet.
    Lagged(u64),
    /// The bus has no sender left and nothing more to deliver.
    BusClosed,
    /// The client queue took the event.
    Written,
    /// The client went away.
    ClientGone,
}

/// What to do next.
#[derive(Debug, PartialEq, Eq)]
pub enum SubscriptionAction<B> {
    /// Wait for the next event of the bus.
    Receive,
    /// Write this event to the client queue, waiting while the queue is full.
    Write(B),
    /// Stop.
    Exit,
}

/// The machine. `passes` says whether the event that was received satisfies
/// the subscriber's predicate; it is read for a received event only.
///
/// While receiving: an event that passes is written, one that does not is
/// dropped, a lag is survived, a closed bus ends the subscription. While
/// writing: a write that went through leads back to receiving, a client that
/// went away ends the subscription. A report that does not answer the wait
/// the subscription is in ends it as well, and once over it stays over.
pub open spec fn next<B>(state: SubscriptionState, event: SubscriptionEvent<B>, passes: bool) -> (
    SubscriptionState,
    SubscriptionAction<B>,
) {
    match (state, event) {
        (SubscriptionState::Receiving, SubscriptionEvent::Received(broadcast)) => if passes {
            (SubscriptionState::Writing, SubscriptionAction::Write(broadcast))
        } else {
            (SubscriptionState::Receiving, SubscriptionAction::Receive)
        },
        (SubscriptionState::Receiving, SubscriptionEvent::Lagged(_)) => (
            SubscriptionState::Receiving,
            SubscriptionAction::Receive,
        ),
        (SubscriptionState::Writing, SubscriptionEvent::Written) => (
            SubscriptionState::Receiving,
            SubscriptionAction::Receive,
        ),
        _ => (SubscriptionState::Finished, SubscriptionAction::Exit),
    }
}

/// One step of the machine.
pub fn advance<B>(state: SubscriptionState, event: SubscriptionEvent<B>, passes: bool) -> (res: (
    SubscriptionState,
    SubscriptionAction<B>,
))
    ensures
        res == next(state, event, passes),
{
    match state {
        SubscriptionState::Receiving => match event {
            SubscriptionEvent::Received(broadcast) => {
                if passes {
                    (SubscriptionState::Writing, SubscriptionAction::Write(broadcast))
                } else {
                    (SubscriptionState::Receiving, SubscriptionAction::Receive)
                }
            },
            SubscriptionEvent::Lagged(_) => (
                SubscriptionState::Receiving,
                SubscriptionAction::Receive,
            ),
            _ => (SubscriptionState::Finished, SubscriptionAction::Exit),
        },
        SubscriptionState::Writing => match event {
            SubscriptionEvent::Written => (
                SubscriptionState::Receiving,
                SubscriptionAction::Receive,
            ),
            _ => (SubscriptionState::Finished, SubscriptionAction::Exit),
        },
        SubscriptionState::Finished => (SubscriptionState::Finished, SubscriptionAction::Exit),
    }
}

/// An event reaches the client exactly when it was received while the
/// subscription was waiting for the bus and it passes the predicate; and what
/// is written is then that very event.
pub proof fn lemma_written_exactly_when_passing<B>(
    state: SubscriptionState,
    event: SubscriptionEvent<B>,
    passes: bool,
)
    ensures
        next(state, event, passes).1 is Write <==> (state == SubscriptionState::Receiving
            && event is Received && passes),
        next(state, event, passes).1 matches SubscriptionAction::Write(written) ==> event
            == SubscriptionEvent::Received(written),
{
}

/// A lag costs the subscriber events, never the subscription: it goes on
/// waiting for the bus.
pub proof fn lemma_lag_is_survived<B>(skipped: u64, passes: bool)
    ensures
        next::<B>(SubscriptionState::Receiving, SubscriptionEvent::Lagged(skipped), passes) == (
            SubscriptionState::Receiving,
            SubscriptionAction::<B>::Receive,
        ),
{
}

/// Once over, a subscription stays over, whatever is reported to it.
pub proof fn lemma_finished_is_final<B>(event: SubscriptionEvent<B>, passes: bool)
    ensures
        next(SubscriptionState::Finished, event, passes) == (
            SubscriptionState::Finished,
            SubscriptionAction::<B>::Exit,
        ),
{
}

} // verus!
