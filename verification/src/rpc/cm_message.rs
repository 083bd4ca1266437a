//! The message service: send and subscribe.
//!
//! Every message that is sent is put on the message bus as one event. A
//! subscriber receives the messages whose set of addressees satisfies its
//! predicate.

use crate::bus::{Bus, BUS_CAPACITY};
use crate::predicate::{all_match, matches_many, matches_one, Key, PredicateView};
use crate::rpc::cm::notification_broadcast::{Operation, OperationView};
use crate::rpc::cm::notification_subscribe_filter::Predicate;
use crate::model::token::TokenKey as Addressee;
use crate::rpc::cm::{
    Message, MessageView, NotificationBroadcast, NotificationSendRequest, NotificationSendResponse,
    NotificationSubscribeRequest, TokenKey,
};
use crate::rpc::status::{channel_broken, not_present, Code, Status, StatusView};
use crate::rpc::subscription::{
    advance, next, SubscriptionAction, SubscriptionEvent, SubscriptionState,
};
use tokio::sync::broadcast::{Receiver, Sender};
use vstd::prelude::*;

verus! {

/// Whether the single key `key` passes the predicate of `request`.
pub fn notification_subscribe_filter(
    request: &NotificationSubscribeRequest,
    key: &TokenKey,
) -> (pass: bool)
    ensures
        pass == matches_one(request@, key@),
{
    match &request.filter {
        Some(filter) => match &filter.predicate {
            Some(Predicate::Complement(complement)) => !complement.contains(key),
            Some(Predicate::Intersection(intersection)) => intersection.contains(key),
            Some(Predicate::Union(_)) => true,
            None => false,
        },
        None => false,
    }
}

/// Whether each of `keys` passes the predicate of `request` on its own.
fn every_key_passes(request: &NotificationSubscribeRequest, keys: &Vec<TokenKey>) -> (pass: bool)
    ensures
        pass == all_match(request@, keys.deep_view().to_set()),
{
    let mut i: usize = 0;
    while i < keys.len()
        invariant
            i <= keys.len(),
            forall|j: int| 0 <= j < i ==> matches_one(request@, #[trigger] keys.deep_view()[j]),
        decreases keys.len() - i,
    {
        if !notification_subscribe_filter(request, &keys[i]) {
            assert(keys.deep_view()[i as int] == keys[i as int]@);
            assert(keys.deep_view().to_set().contains(keys.deep_view()[i as int]));
            return false;
        }
        assert(keys.deep_view()[i as int] == keys[i as int]@);
        i += 1;
    }
    assert forall|k: Key| keys.deep_view().to_set().contains(k) implies matches_one(
        request@,
        k,
    ) by {
        let j = choose|j: int| 0 <= j < keys.deep_view().len() && keys.deep_view()[j] == k;
        assert(matches_one(request@, keys.deep_view()[j]));
    }
    true
}

/// Whether a message addressed to `keys` passes the predicate of `request`.
fn addressees_pass(request: &NotificationSubscribeRequest, keys: &Vec<TokenKey>) -> (pass: bool)
    ensures
        pass == matches_many(request@, keys.deep_view().to_set()),
{
    match &request.filter {
        Some(filter) => match &filter.predicate {
            Some(Predicate::Union(_)) => true,
            Some(_) => {
                if keys.len() == 0 {
                    assert(keys.deep_view().to_set() =~= Set::<Key>::empty());
                    false
                } else {
                    assert(keys.deep_view().to_set().contains(keys.deep_view()[0]));
                    every_key_passes(request, keys)
                }
            },
            None => false,
        },
        None => false,
    }
}

/// Whether a message addressed to `keys` passes the predicate of `request`.
pub fn notifications_subscribe_filter(
    request: &NotificationSubscribeRequest,
    keys: Vec<TokenKey>,
) -> (pass: bool)
    ensures
        pass == matches_many(request@, keys.deep_view().to_set()),
{
    addressees_pass(request, &keys)
}

/// Whether a subscriber with this predicate is sent this event. An event that
/// names no operation, or a message without a list of addressees, is sent to
/// nobody.
pub open spec fn delivers(
    predicate: Option<PredicateView>,
    broadcast: Option<OperationView>,
) -> bool {
    match broadcast {
        Some(OperationView::Send(message)) => match message.codomain {
            Some(keys) => matches_many(predicate, keys.to_set()),
            None => false,
        },
        None => false,
    }
}

/// Whether `broadcast` is for the subscriber that made `request`.
pub fn notification_broadcast_passes(
    request: &NotificationSubscribeRequest,
    broadcast: &NotificationBroadcast,
) -> (pass: bool)
    ensures
        pass == delivers(request@, broadcast@),
{
    match &broadcast.operation {
        Some(Operation::Send(notification)) => match &notification.codomain {
            Some(codomain) => addressees_pass(request, &codomain.keys),
            None => false,
        },
        None => false,
    }
}

/// One step of a message subscription: what the subscriber that made
/// `request` does in `state` when `event` is reported. A received event is
/// written to the client exactly when `delivers` says so.
pub fn notification_subscribe_step(
    request: &NotificationSubscribeRequest,
    state: SubscriptionState,
    event: SubscriptionEvent<NotificationBroadcast>,
) -> (res: (SubscriptionState, SubscriptionAction<NotificationBroadcast>))
    ensures
        res == next(
            state,
            event,
            event matches SubscriptionEvent::Received(broadcast) && delivers(request@, broadcast@),
        ),
{
    let passes = match &event {
        SubscriptionEvent::Received(broadcast) => notification_broadcast_passes(request, broadcast),
        _ => false,
    };
    advance(state, event, passes)
}

/// What a send answers when the bus has nobody to take the event.
#[derive(Debug, Clone, Copy, PartialEq, Eq, Structural)]
pub enum Unheard {
    /// The send is refused as a broken channel.
    Refuse,
    /// The send succeeds all the same.
    Accept,
}

/// The answer to a send, once the bus has said whether it took the event: the
/// message, echoed, or a refusal where the bus took nothing and the policy is
/// to refuse then.
pub fn send_reply(message: Message, accepted: bool, unheard: Unheard) -> (res: Result<
    NotificationSendResponse,
    Status,
>)
    ensures
        accepted || unheard == Unheard::Accept ==> (res matches Ok(response)
            && response.sent.deep_view() == Some(message@)),
        !accepted && unheard == Unheard::Refuse ==> (res matches Err(status) && status@
            == channel_broken()),
{
    if accepted {
        Ok(NotificationSendResponse { sent: Some(message) })
    } else {
        match unheard {
            Unheard::Accept => Ok(NotificationSendResponse { sent: Some(message) }),
            Unheard::Refuse => Err(Status::internal("channel broken".to_owned())),
        }
    }
}

/// The final answer to a send, once the push sink has said how the push to the
/// message's addressees went: the answer that was prepared, or the sink's
/// failure as a fault of the service.
pub fn push_reply(response: NotificationSendResponse, pushed: Result<(), String>) -> (res: Result<
    NotificationSendResponse,
    Status,
>)
    ensures
        pushed is Ok ==> res == Ok::<NotificationSendResponse, Status>(response),
        pushed matches Err(failure) ==> (res matches Err(status) && status@ == (StatusView {
            code: Code::Internal,
            message: failure@,
        })),
{
    match pushed {
        Ok(_) => Ok(response),
        Err(failure) => Err(Status::internal(failure)),
    }
}

/// The addressees that the message of a prepared answer is pushed to: the keys
/// of its codomain, in their order, and nobody where it names none.
pub fn push_targets(response: &NotificationSendResponse) -> (targets: Vec<Addressee>)
    ensures
        targets.deep_view() == match response.sent.deep_view() {
            Some(message) => match message.codomain {
                Some(keys) => keys,
                None => Seq::<Key>::empty(),
            },
            None => Seq::<Key>::empty(),
        },
{
    match &response.sent {
        Some(message) => match &message.codomain {
            Some(codomain) => Vec::<Addressee>::from(codomain.clone()),
            None => {
                let targets: Vec<Addressee> = Vec::new();
                assert(targets.deep_view() =~= Seq::<Key>::empty());
                targets
            },
        },
        None => {
            let targets: Vec<Addressee> = Vec::new();
            assert(targets.deep_view() =~= Seq::<Key>::empty());
            targets
        },
    }
}

/// The message service: the message bus, and what to answer when nobody is
/// attached to it.
pub struct CmMessageService {
    bus: Bus<NotificationBroadcast>,
    unheard: Unheard,
}

/// A subscriber's end of the message bus, with the request that opened it.
pub struct NotificationSubscription {
    pub request: NotificationSubscribeRequest,
    pub receiver: Receiver<NotificationBroadcast>,
}

impl CmMessageService {
    /// Every event that the service has handed to the bus, oldest first.
    pub closed spec fn offered(&self) -> Seq<Option<OperationView>> {
        self.bus.offered()
    }

    /// What the service answers when the bus has nobody to take an event.
    pub closed spec fn unheard(&self) -> Unheard {
        self.unheard
    }

    /// A service on the bus `ch`. It refuses a send that nobody can hear.
    pub fn new(ch: (Sender<NotificationBroadcast>, Receiver<NotificationBroadcast>)) -> (res: Self)
        ensures
            res.offered() == Seq::<Option<OperationView>>::empty(),
            res.unheard() == Unheard::Refuse,
    {
        Self { bus: Bus::over(ch), unheard: Unheard::Refuse }
    }

    /// The same service with another answer to a send that nobody can hear.
    pub fn with_unheard(self, unheard: Unheard) -> (res: Self)
        ensures
            res.offered() == self.offered(),
            res.unheard() == unheard,
    {
        Self { bus: self.bus, unheard }
    }

    /// Sends the message that `request` carries.
    ///
    /// A request without a message is refused and nothing is put on the bus.
    /// Otherwise the bus is handed exactly one event, the sending of that
    /// message, and the answer echoes the message, unless the bus had nobody
    /// to take the event and the service refuses then.
    ///
    /// The answer is final once the message has been pushed to the addressees
    /// that `push_targets` names: see `push_reply`.
    pub fn notification_send(&mut self, request: NotificationSendRequest) -> (res: Result<
        NotificationSendResponse,
        Status,
    >)
        ensures
            final(self).unheard() == old(self).unheard(),
            request.inner is None ==> ({
                &&& res matches Err(status)
                &&& status@ == not_present("inner notification"@)
                &&& final(self).offered() == old(self).offered()
            }),
            request.inner matches Some(message) ==> ({
                &&& final(self).offered() == old(self).offered().push(
                    Some(OperationView::Send(message@)),
                )
                &&& match res {
                    Ok(response) => response.sent.deep_view() == Some(message@),
                    Err(status) => status@ == channel_broken() && old(self).unheard()
                        == Unheard::Refuse,
                }
            }),
            request.inner is Some && old(self).unheard() == Unheard::Accept ==> res is Ok,
    {
        let notification = match request.inner {
            Some(notification) => notification,
            None => {
                return Err(Status::missing("inner notification"));
            },
        };
        let broadcast = NotificationBroadcast {
            operation: Some(Operation::Send(notification.clone())),
        };
        let accepted = self.bus.publish(broadcast).is_ok();
        send_reply(notification, accepted, self.unheard)
    }

    /// Attaches a new subscriber to the bus. What the subscriber is sent of
    /// the events that follow is decided, event by event, by
    /// `notification_subscribe_step`.
    pub fn notification_subscribe(&self, request: NotificationSubscribeRequest) -> (res:
        NotificationSubscription)
        ensures
            res.request == request,
    {
        NotificationSubscription { request, receiver: self.bus.subscribe() }
    }
}

impl Default for CmMessageService {
    fn default() -> (res: Self)
        ensures
            res.offered() == Seq::<Option<OperationView>>::empty(),
            res.unheard() == Unheard::Refuse,
    {
        Self { bus: Bus::new(BUS_CAPACITY), unheard: Unheard::Refuse }
    }
}

/// Under an intersection predicate over `s`, a message to at least one
/// addressee is delivered exactly when its addressees all lie in `s`.
pub proof fn lemma_intersection_delivers_inside(
    s: Set<Key>,
    message: MessageView,
    keys: Seq<Key>,
)
    requires
        message.codomain == Some(keys),
        keys.len() > 0,
    ensures
        delivers(Some(PredicateView::Intersection(s)), Some(OperationView::Send(message)))
            <==> keys.to_set().subset_of(s),
{
    assert(keys.to_set().contains(keys[0]));
    crate::predicate::lemma_intersection_is_containment(s, keys.to_set());
}

/// Under a complement predicate over `s`, a message to at least one addressee
/// is delivered exactly when none of its addressees lies in `s`.
pub proof fn lemma_complement_delivers_outside(
    s: Set<Key>,
    message: MessageView,
    keys: Seq<Key>,
)
    requires
        message.codomain == Some(keys),
        keys.len() > 0,
    ensures
        delivers(Some(PredicateView::Complement(s)), Some(OperationView::Send(message)))
            <==> keys.to_set().intersect(s) == Set::<Key>::empty(),
{
    assert(keys.to_set().contains(keys[0]));
    crate::predicate::lemma_complement_is_empty_intersection(s, keys.to_set());
}

/// Under the predicate "everything", every message with a list of addressees
/// is delivered, even where the list is empty.
pub proof fn lemma_union_delivers_all(message: MessageView)
    requires
        message.codomain is Some,
    ensures
        delivers(Some(PredicateView::Union), Some(OperationView::Send(message))),
{
}

/// A subscriber whose request names no predicate is never sent anything:
/// whatever the state and whatever is reported, the step writes nothing.
pub proof fn lemma_no_predicate_no_delivery(
    state: SubscriptionState,
    event: SubscriptionEvent<NotificationBroadcast>,
)
    ensures
        forall|broadcast: Option<OperationView>| !delivers(None, broadcast),
        !(next(
            state,
            event,
            event matches SubscriptionEvent::Received(broadcast) && delivers(None, broadcast@),
        ).1 is Write),
{
}

/// A message to nobody passes no set predicate.
pub proof fn lemma_no_addressee_no_delivery(predicate: PredicateView, message: MessageView)
    requires
        message.codomain == Some(Seq::<Key>::empty()),
        predicate != PredicateView::Union,
    ensures
        !delivers(Some(predicate), Some(OperationView::Send(message))),
{
    assert(Seq::<Key>::empty().to_set() =~= Set::<Key>::empty());
}

} // verus!
