//! The token service: register, update and subscribe.
//!
//! Every mutation of the store is followed by one event on the token bus. A
//! subscriber receives the events whose key satisfies its predicate.

use crate::bus::{Bus, BUS_CAPACITY};
use crate::database::{TokenDb, TokenDbError, TokenDbInMemory};
use crate::model::token::{wire_time, wire_token, wire_update, Token, TokenKey, TokenUpdate};
use crate::predicate::{matches_one, Key, PredicateView};
use crate::rpc::cm::token_broadcast::{Operation, OperationView};
use crate::rpc::cm::token_subscribe_filter::Predicate;
use crate::rpc::cm::{
    self, TokenBroadcast, TokenRegisterRequest, TokenRegisterResponse, TokenSubscribeRequest,
    TokenUpdateRequest, TokenUpdateResponse,
};
use crate::rpc::status::{
    channel_broken, database_failed, not_existing, not_present, Status, StatusView,
};
use crate::rpc::subscription::{
    advance, next, SubscriptionAction, SubscriptionEvent, SubscriptionState,
};
use tokio::sync::broadcast::{Receiver, Sender};
use vstd::prelude::*;
use vstd::string::StringExecFns;

verus! {

/// Whether an event about `key` passes the predicate of `request`.
pub fn token_subscribe_filter(request: &TokenSubscribeRequest, key: &cm::TokenKey) -> (pass: bool)
    ensures
        pass == matches_one(request@, key@),
{
    match &request.filter {
        Some(filter) => match &filter.predicate {
            Some(Predicate::Complement(complement)) => !complement.contains(key),
            Some(Predicate::Intersection(intersection)) => intersection.contains(key),
            Some(Predicate::Union(_)) => true,
            None => false,
        },
        None => false,
    }
}

/// The key that decides whether a token event is delivered: the key of the
/// token that was added or removed, or of the record that an update replaced.
pub open spec fn event_key(operation: OperationView) -> Option<Key> {
    match operation {
        OperationView::Addition(token) => token.key,
        OperationView::Invalidation(token) => token.key,
        OperationView::Update(update) => match update.original {
            Some(original) => original.key,
            None => None,
        },
    }
}

/// Whether a subscriber with this predicate is sent this event. An event that
/// names no operation, or whose deciding key is missing, is sent to nobody.
pub open spec fn delivers(
    predicate: Option<PredicateView>,
    broadcast: Option<OperationView>,
) -> bool {
    match broadcast {
        Some(operation) => match event_key(operation) {
            Some(key) => matches_one(predicate, key),
            None => false,
        },
        None => false,
    }
}

/// Whether `broadcast` is for the subscriber that made `request`.
pub fn token_broadcast_passes(request: &TokenSubscribeRequest, broadcast: &TokenBroadcast) -> (pass:
    bool)
    ensures
        pass == delivers(request@, broadcast@),
{
    match &broadcast.operation {
        Some(Operation::Addition(addition)) => match &addition.key {
            Some(key) => token_subscribe_filter(request, key),
            None => false,
        },
        Some(Operation::Invalidation(invalidation)) => match &invalidation.key {
            Some(key) => token_subscribe_filter(request, key),
            None => false,
        },
        Some(Operation::Update(update)) => match &update.original {
            Some(original) => match &original.key {
                Some(key) => token_subscribe_filter(request, key),
                None => false,
            },
            None => false,
        },
        None => false,
    }
}

/// One step of a token subscription: what the subscriber that made `request`
/// does in `state` when `event` is reported. A received event is written to
/// the client exactly when `delivers` says so.
pub fn token_subscribe_step(
    request: &TokenSubscribeRequest,
    state: SubscriptionState,
    event: SubscriptionEvent<TokenBroadcast>,
) -> (res: (SubscriptionState, SubscriptionAction<TokenBroadcast>))
    ensures
        res == next(
            state,
            event,
            event matches SubscriptionEvent::Received(broadcast) && delivers(request@, broadcast@),
        ),
{
    let passes = match &event {
        SubscriptionEvent::Received(broadcast) => token_broadcast_passes(request, broadcast),
        _ => false,
    };
    advance(state, event, passes)
}

/// The status that answers a request which the store refused.
pub open spec fn store_refusal(error: TokenDbError) -> StatusView {
    match error {
        TokenDbError::TokenNotPresent(key) => not_existing(key@),
        TokenDbError::Unknown => database_failed(),
    }
}

/// Turns a refusal of the store into a status for the caller: an unknown key
/// is the caller's fault, anything else is the service's.
pub fn store_status(error: TokenDbError) -> (status: Status)
    ensures
        status@ == store_refusal(error),
{
    match error {
        TokenDbError::TokenNotPresent(key) => {
            let mut message = "token `".to_owned();
            message.append(key.key.as_str());
            message.append("` not existing");
            Status::invalid_argument(message)
        },
        TokenDbError::Unknown => Status::internal("database failed".to_owned()),
    }
}

/// The event that reports a registration.
pub fn addition_event(token: &Token) -> (broadcast: TokenBroadcast)
    ensures
        broadcast@ == Some(OperationView::Addition(wire_token(token@))),
{
    TokenBroadcast { operation: Some(Operation::Addition(cm::Token::from(token))) }
}

/// The event that reports an update.
pub fn update_event(update: &TokenUpdate) -> (broadcast: TokenBroadcast)
    ensures
        broadcast@ == Some(OperationView::Update(wire_update(update@))),
{
    TokenBroadcast {
        operation: Some(
            Operation::Update(
                cm::TokenUpdate {
                    original: Some(cm::Token::from(&update.original)),
                    delta: Some(cm::Token::from(&update.delta)),
                },
            ),
        ),
    }
}

/// The answer to an update that the store carried out, once the bus has said
/// whether it took the event: the new record and its time, or a refusal where
/// the bus took nothing.
pub fn update_reply(update: TokenUpdate, accepted: bool) -> (res: Result<
    TokenUpdateResponse,
    Status,
>)
    ensures
        accepted ==> ({
            &&& res matches Ok(response)
            &&& response.token.deep_view() == Some(wire_token(update@.delta))
            &&& response.timestamp == Some(wire_time(update@.delta.timestamp))
        }),
        !accepted ==> (res matches Err(status) && status@ == channel_broken()),
{
    if accepted {
        let timestamp = cm::Timestamp { seconds: update.delta.timestamp, nanos: 0 };
        Ok(
            TokenUpdateResponse {
                token: Some(cm::Token::from(update.delta)),
                timestamp: Some(timestamp),
            },
        )
    } else {
        Err(Status::internal("channel broken".to_owned()))
    }
}

/// The token service: a store, and the token bus.
pub struct CmTokenService<Db: TokenDb> {
    bus: Bus<TokenBroadcast>,
    db: Db,
}

/// A subscriber's end of the token bus, with the request that opened it.
pub struct TokenSubscription {
    pub request: TokenSubscribeRequest,
    pub receiver: Receiver<TokenBroadcast>,
}

/// The key that a registration names, if it names one.
pub open spec fn register_key(request: TokenRegisterRequest) -> Option<Key> {
    match request.token {
        Some(token) => token@.key,
        None => None,
    }
}

/// The status that answers a registration which names no key: it says which
/// part is missing.
pub open spec fn register_refusal(request: TokenRegisterRequest) -> StatusView {
    match request.token {
        Some(_) => not_present("token key"@),
        None => not_present("token"@),
    }
}

impl<Db: TokenDb> CmTokenService<Db> {
    /// The records of the store behind the service.
    pub closed spec fn records(&self) -> Map<Key, crate::model::token::TokenView> {
        self.db.records()
    }

    /// Every event that the service has handed to the bus, oldest first.
    pub closed spec fn offered(&self) -> Seq<Option<OperationView>> {
        self.bus.offered()
    }

    /// A service on the bus `ch` and the store `db`.
    pub fn new(ch: (Sender<TokenBroadcast>, Receiver<TokenBroadcast>), db: Db) -> (res: Self)
        ensures
            res.records() == db.records(),
            res.offered() == Seq::<Option<OperationView>>::empty(),
    {
        Self { bus: Bus::over(ch), db }
    }

    /// A service on a bus of its own and the store `db`.
    pub fn new_with_db(db: Db) -> (res: Self)
        ensures
            res.records() == db.records(),
            res.offered() == Seq::<Option<OperationView>>::empty(),
    {
        Self { bus: Bus::new(BUS_CAPACITY), db }
    }

    /// The store behind the service.
    pub fn db(&self) -> (db: &Db)
        ensures
            db.records() == self.records(),
    {
        &self.db
    }

    /// Whether, between `before` and `self`, the store wrote a fresh record
    /// under `key` and the bus was handed the addition of that record.
    pub open spec fn registered(&self, before: &Self, key: Key) -> bool {
        let written = self.records()[key];
        &&& written.key == key
        &&& self.records() == before.records().insert(key, written)
        &&& self.offered() == before.offered().push(
            Some(OperationView::Addition(wire_token(written))),
        )
    }

    /// What a registration leaves behind and answers, `before` being the
    /// service as the registration found it.
    ///
    /// A request that names no key is refused with the name of the missing
    /// part, and nothing changes. A request that names a key is carried out,
    /// with the record that was written as the answer, unless the store
    /// refuses, which a dependable store never does; the bus is handed nothing
    /// then.
    pub open spec fn registration(
        &self,
        before: &Self,
        request: TokenRegisterRequest,
        res: Result<TokenRegisterResponse, Status>,
    ) -> bool {
        match register_key(request) {
            None => {
                &&& res matches Err(status)
                &&& status@ == register_refusal(request)
                &&& self.records() == before.records()
                &&& self.offered() == before.offered()
            },
            Some(key) => match res {
                Ok(response) => {
                    &&& self.registered(before, key)
                    &&& response.token.deep_view() == Some(wire_token(self.records()[key]))
                },
                Err(status) => {
                    &&& !Db::dependable()
                    &&& exists|error: TokenDbError| status@ == #[trigger] store_refusal(error)
                    &&& self.offered() == before.offered()
                },
            },
        }
    }

    /// Registers the token that `request` names.
    ///
    /// A request without a token, or with a token without a key, is refused
    /// and changes nothing. Otherwise the store writes a fresh record under
    /// the key, the bus is handed the addition of that record, and the record
    /// is the answer, whether or not the bus had anyone to take the event. Only
    /// a store that fails can still refuse.
    pub fn token_register(&mut self, request: TokenRegisterRequest) -> (res: Result<
        TokenRegisterResponse,
        Status,
    >)
        ensures
            final(self).registration(old(self), request, res),
    {
        let token = match request.token {
            Some(token) => token,
            None => {
                return Err(Status::missing("token"));
            },
        };
        let key = match token.key {
            Some(key) => key,
            None => {
                return Err(Status::missing("token key"));
            },
        };
        let written = match self.db.insert(TokenKey::from(key)) {
            Ok(written) => written,
            Err(error) => {
                return Err(store_status(error));
            },
        };
        let _ = self.bus.publish(addition_event(&written));
        Ok(TokenRegisterResponse { token: Some(cm::Token::from(written)) })
    }

    /// Whether, between `before` and `self`, the store replaced the record
    /// under `key` by a fresh one and the bus was handed that update.
    pub open spec fn replaced(&self, before: &Self, key: Key) -> bool {
        let original = before.records()[key];
        let delta = self.records()[key];
        &&& before.records().contains_key(key)
        &&& original.key == key
        &&& delta.key == key
        &&& self.records() == before.records().insert(key, delta)
        &&& self.offered() == before.offered().push(
            Some(
                OperationView::Update(
                    wire_update(crate::model::token::TokenUpdateView { original, delta }),
                ),
            ),
        )
    }

    /// Refreshes the token under the key that `request` names.
    ///
    /// A request without a key is refused and changes nothing, and so is one
    /// whose key the store does not hold. Otherwise the store replaces the
    /// record, the bus is handed the update with the old and the new record,
    /// and the answer is the new record with its time, unless the bus took
    /// nothing, which is answered as a broken channel while the new record
    /// stands.
    pub fn token_update(&mut self, request: TokenUpdateRequest) -> (res: Result<
        TokenUpdateResponse,
        Status,
    >)
        ensures
            request.key is None ==> ({
                &&& res matches Err(status)
                &&& status@ == not_present("token"@)
                &&& final(self).records() == old(self).records()
                &&& final(self).offered() == old(self).offered()
            }),
            request.key matches Some(key) ==> match res {
                Ok(response) => {
                    &&& final(self).replaced(old(self), key@)
                    &&& response.token.deep_view() == Some(wire_token(final(self).records()[key@]))
                    &&& response.timestamp == Some(
                        wire_time(final(self).records()[key@].timestamp),
                    )
                },
                Err(status) => {
                    ||| {
                        &&& status@ == not_existing(key@)
                        &&& !old(self).records().contains_key(key@)
                        &&& final(self).records() == old(self).records()
                        &&& final(self).offered() == old(self).offered()
                    }
                    ||| {
                        &&& status@ == channel_broken()
                        &&& final(self).replaced(old(self), key@)
                    }
                    ||| {
                        &&& status@ == database_failed()
                        &&& !Db::dependable()
                        &&& final(self).offered() == old(self).offered()
                    }
                },
            },
            request.key matches Some(key) ==> (Db::dependable() && !old(
                self,
            ).records().contains_key(key@) ==> (res matches Err(status) && status@ == not_existing(
                key@,
            ))),
    {
        let key = match request.key {
            Some(key) => key,
            None => {
                return Err(Status::missing("token"));
            },
        };
        let update = match self.db.update(TokenKey::from(key)) {
            Ok(update) => update,
            Err(error) => {
                return Err(store_status(error));
            },
        };
        let accepted = self.bus.publish(update_event(&update)).is_ok();
        update_reply(update, accepted)
    }

    /// Attaches a new subscriber to the bus. What the subscriber is sent of
    /// the events that follow is decided, event by event, by
    /// `token_subscribe_step`.
    pub fn token_subscribe(&self, request: TokenSubscribeRequest) -> (res: TokenSubscription)
        ensures
            res.request == request,
    {
        TokenSubscription { request, receiver: self.bus.subscribe() }
    }
}

impl Default for CmTokenService<TokenDbInMemory> {
    fn default() -> (res: Self)
        ensures
            res.records() == Map::<Key, crate::model::token::TokenView>::empty(),
            res.offered() == Seq::<Option<OperationView>>::empty(),
    {
        CmTokenService::new_with_db(TokenDbInMemory::default())
    }
}

/// Under an intersection predicate over `s`, a token event is delivered
/// exactly when the key it carries lies in `s`.
pub proof fn lemma_intersection_delivers_inside(s: Set<Key>, operation: OperationView, key: Key)
    requires
        event_key(operation) == Some(key),
    ensures
        delivers(Some(PredicateView::Intersection(s)), Some(operation)) <==> set![key].subset_of(s),
{
    assert(set![key].contains(key));
}

/// Under a complement predicate over `s`, a token event is delivered exactly
/// when the key it carries does not lie in `s`.
pub proof fn lemma_complement_delivers_outside(s: Set<Key>, operation: OperationView, key: Key)
    requires
        event_key(operation) == Some(key),
    ensures
        delivers(Some(PredicateView::Complement(s)), Some(operation)) <==> set![key].intersect(s)
            == Set::<Key>::empty(),
{
    if s.contains(key) {
        assert(set![key].intersect(s).contains(key));
    } else {
        assert(set![key].intersect(s) =~= Set::<Key>::empty());
    }
}

/// Under the predicate "everything", every token event that carries a key is
/// delivered.
pub proof fn lemma_union_delivers_all(operation: OperationView)
    requires
        event_key(operation) is Some,
    ensures
        delivers(Some(PredicateView::Union), Some(operation)),
{
}

/// A subscriber whose request names no predicate is never sent anything:
/// whatever the state and whatever is reported, the step writes nothing.
pub proof fn lemma_no_predicate_no_delivery(
    state: SubscriptionState,
    event: SubscriptionEvent<TokenBroadcast>,
)
    ensures
        forall|broadcast: Option<OperationView>| !delivers(None, broadcast),
        !(next(
            state,
            event,
            event matches SubscriptionEvent::Received(broadcast) && delivers(None, broadcast@),
        ).1 is Write),
{
}

/// A registration that names `key` succeeds on every store that is
/// dependable. After one that succeeded, the last event that the bus was
/// handed is the addition of a token with that key, and a subscriber to
/// "everything" that receives it while waiting for the bus writes it to its
/// client.
pub proof fn lemma_registration_reaches_union_subscriber<Db: TokenDb>(
    before: CmTokenService<Db>,
    after: CmTokenService<Db>,
    request: TokenRegisterRequest,
    res: Result<TokenRegisterResponse, Status>,
    key: Key,
    subscriber: TokenSubscribeRequest,
    broadcast: TokenBroadcast,
)
    requires
        after.registration(&before, request, res),
        register_key(request) == Some(key),
        subscriber@ == Some(PredicateView::Union),
        broadcast@ == after.offered().last(),
    ensures
        Db::dependable() ==> res is Ok,
        res is Ok ==> ({
            &&& after.offered().len() == before.offered().len() + 1
            &&& broadcast@ matches Some(OperationView::Addition(token))
            &&& token.key == Some(key)
            &&& delivers(subscriber@, broadcast@)
            &&& next(
                SubscriptionState::Receiving,
                SubscriptionEvent::Received(broadcast),
                delivers(subscriber@, broadcast@),
            ) == (SubscriptionState::Writing, SubscriptionAction::Write(broadcast))
        }),
{
}

} // verus!
