//! The shapes that travel between the services and their clients. Every
//! sub-message is optional on the wire, so every nested field is an `Option`.

use crate::predicate::{Key, PredicateView};
use std::collections::HashMap;
use vstd::prelude::*;

pub mod notification_broadcast;
pub mod notification_subscribe_filter;
pub mod token_broadcast;
pub mod token_subscribe_filter;

verus! {

/// A point in time: seconds since the Unix epoch and a fraction in
/// nanoseconds. The services only ever write a fraction of zero.
#[derive(Debug, Clone, Copy, PartialEq, Eq, Structural)]
pub struct Timestamp {
    pub seconds: i64,
    pub nanos: i32,
}

impl View for Timestamp {
    type V = Timestamp;

    open spec fn view(&self) -> Timestamp {
        *self
    }
}

impl DeepView for Timestamp {
    type V = Timestamp;

    open spec fn deep_view(&self) -> Timestamp {
        *self
    }
}

/// A token key on the wire.
#[derive(Debug, PartialEq, Eq)]
pub struct TokenKey {
    pub key: String,
}

impl View for TokenKey {
    type V = Key;

    open spec fn view(&self) -> Key {
        self.key@
    }
}

impl DeepView for TokenKey {
    type V = Key;

    open spec fn deep_view(&self) -> Key {
        self@
    }
}

impl Clone for TokenKey {
    fn clone(&self) -> (res: Self)
        ensures
            res@ == self@,
    {
        TokenKey { key: self.key.clone() }
    }
}

/// A collection of keys. It may repeat a key; what counts is the set.
#[derive(Debug, PartialEq, Eq)]
pub struct TokenKeys {
    pub keys: Vec<TokenKey>,
}

impl View for TokenKeys {
    type V = Seq<Key>;

    open spec fn view(&self) -> Seq<Key> {
        self.keys.deep_view()
    }
}

impl DeepView for TokenKeys {
    type V = Seq<Key>;

    open spec fn deep_view(&self) -> Seq<Key> {
        self@
    }
}

/// Copies a list of keys, key by key.
fn clone_keys(keys: &Vec<TokenKey>) -> (res: Vec<TokenKey>)
    ensures
        res.deep_view() == keys.deep_view(),
{
    let mut res: Vec<TokenKey> = Vec::new();
    let mut i: usize = 0;
    while i < keys.len()
        invariant
            i <= keys.len(),
            res.len() == i,
            forall|j: int| 0 <= j < i ==> res[j]@ == keys[j]@,
        decreases keys.len() - i,
    {
        res.push(keys[i].clone());
        i += 1;
    }
    assert(res.deep_view() =~= keys.deep_view());
    res
}

impl TokenKeys {
    /// Whether `key` is one of the keys.
    pub fn contains(&self, key: &TokenKey) -> (res: bool)
        ensures
            res == self@.to_set().contains(key@),
    {
        let mut i: usize = 0;
        while i < self.keys.len()
            invariant
                i <= self.keys.len(),
                forall|j: int| 0 <= j < i ==> self@[j] != key@,
            decreases self.keys.len() - i,
        {
            if self.keys[i].key == key.key {
                assert(self@[i as int] == key@);
                return true;
            }
            i += 1;
        }
        false
    }
}

impl Clone for TokenKeys {
    fn clone(&self) -> (res: Self)
        ensures
            res@ == self@,
    {
        TokenKeys { keys: clone_keys(&self.keys) }
    }
}

/// What the contracts see of a token on the wire.
pub struct TokenView {
    pub key: Option<Key>,
    pub timestamp: Option<Timestamp>,
}

/// A token record on the wire.
#[derive(Debug, PartialEq, Eq)]
pub struct Token {
    pub key: Option<TokenKey>,
    pub timestamp: Option<Timestamp>,
}

impl View for Token {
    type V = TokenView;

    open spec fn view(&self) -> TokenView {
        TokenView { key: self.key.deep_view(), timestamp: self.timestamp }
    }
}

impl DeepView for Token {
    type V = TokenView;

    open spec fn deep_view(&self) -> TokenView {
        self@
    }
}

impl Clone for Token {
    fn clone(&self) -> (res: Self)
        ensures
            res@ == self@,
    {
        let key = match &self.key {
            Some(k) => Some(k.clone()),
            None => None,
        };
        Token { key, timestamp: self.timestamp }
    }
}

/// A collection of tokens.
#[derive(Debug, PartialEq, Eq)]
pub struct Tokens {
    pub tokens: Vec<Token>,
}

impl View for Tokens {
    type V = Seq<TokenView>;

    open spec fn view(&self) -> Seq<TokenView> {
        self.tokens.deep_view()
    }
}

impl DeepView for Tokens {
    type V = Seq<TokenView>;

    open spec fn deep_view(&self) -> Seq<TokenView> {
        self@
    }
}

/// What the contracts see of an update on the wire.
pub struct TokenUpdateView {
    pub original: Option<TokenView>,
    pub delta: Option<TokenView>,
}

/// The record that an update replaced, and the record that replaced it.
#[derive(Debug, PartialEq, Eq)]
pub struct TokenUpdate {
    pub original: Option<Token>,
    pub delta: Option<Token>,
}

impl View for TokenUpdate {
    type V = TokenUpdateView;

    open spec fn view(&self) -> TokenUpdateView {
        TokenUpdateView { original: self.original.deep_view(), delta: self.delta.deep_view() }
    }
}

impl DeepView for TokenUpdate {
    type V = TokenUpdateView;

    open spec fn deep_view(&self) -> TokenUpdateView {
        self@
    }
}

impl Clone for TokenUpdate {
    fn clone(&self) -> (res: Self)
        ensures
            res@ == self@,
    {
        let original = match &self.original {
            Some(t) => Some(t.clone()),
            None => None,
        };
        let delta = match &self.delta {
            Some(t) => Some(t.clone()),
            None => None,
        };
        TokenUpdate { original, delta }
    }
}

/// What the contracts see of a message on the wire.
pub struct MessageView {
    pub content: Map<Seq<char>, Seq<char>>,
    pub codomain: Option<Seq<Key>>,
    pub timestamp: Option<Timestamp>,
}

/// A producer's message: its payload, the keys it is addressed to (its
/// codomain) and the time it carries.
#[derive(Debug, PartialEq, Eq)]
pub struct Message {
    pub content: HashMap<String, String>,
    pub codomain: Option<TokenKeys>,
    pub timestamp: Option<Timestamp>,
}

impl View for Message {
    type V = MessageView;

    open spec fn view(&self) -> MessageView {
        MessageView {
            content: self.content.deep_view(),
            codomain: self.codomain.deep_view(),
            timestamp: self.timestamp,
        }
    }
}

impl DeepView for Message {
    type V = MessageView;

    open spec fn deep_view(&self) -> MessageView {
        self@
    }
}

impl Clone for Message {
    fn clone(&self) -> (res: Self)
        ensures
            res@ == self@,
    {
        let content = self.content.clone();
        let codomain = match &self.codomain {
            Some(keys) => Some(keys.clone()),
            None => None,
        };
        proof {
            reveal(vstd::std_specs::hash::hash_map_deep_view_impl);
            assert(content.deep_view() =~= self.content.deep_view());
        }
        Message { content, codomain, timestamp: self.timestamp }
    }
}

/// The predicate of a token subscription, if it names one.
#[derive(Debug, PartialEq, Eq)]
pub struct TokenSubscribeFilter {
    pub predicate: Option<token_subscribe_filter::Predicate>,
}

/// A request to receive token events. Without a filter, or with a filter that
/// names no predicate, the subscriber receives nothing.
#[derive(Debug, PartialEq, Eq)]
pub struct TokenSubscribeRequest {
    pub filter: Option<TokenSubscribeFilter>,
}

impl View for TokenSubscribeRequest {
    type V = Option<PredicateView>;

    open spec fn view(&self) -> Option<PredicateView> {
        match self.filter {
            Some(filter) => filter.predicate.deep_view(),
            None => None,
        }
    }
}

impl Clone for TokenSubscribeRequest {
    fn clone(&self) -> (res: Self)
        ensures
            res@ == self@,
    {
        let filter = match &self.filter {
            Some(filter) => Some(
                TokenSubscribeFilter {
                    predicate: match &filter.predicate {
                        Some(predicate) => Some(predicate.clone()),
                        None => None,
                    },
                },
            ),
            None => None,
        };
        TokenSubscribeRequest { filter }
    }
}

/// The predicate of a message subscription, if it names one.
#[derive(Debug, PartialEq, Eq)]
pub struct NotificationSubscribeFilter {
    pub predicate: Option<notification_subscribe_filter::Predicate>,
}

/// A request to receive messages. Without a filter, or with a filter that
/// names no predicate, the subscriber receives nothing.
#[derive(Debug, PartialEq, Eq)]
pub struct NotificationSubscribeRequest {
    pub filter: Option<NotificationSubscribeFilter>,
}

impl View for NotificationSubscribeRequest {
    type V = Option<PredicateView>;

    open spec fn view(&self) -> Option<PredicateView> {
        match self.filter {
            Some(filter) => filter.predicate.deep_view(),
            None => None,
        }
    }
}

impl Clone for NotificationSubscribeRequest {
    fn clone(&self) -> (res: Self)
        ensures
            res@ == self@,
    {
        let filter = match &self.filter {
            Some(filter) => Some(
                NotificationSubscribeFilter {
                    predicate: match &filter.predicate {
                        Some(predicate) => Some(predicate.clone()),
                        None => None,
                    },
                },
            ),
            None => None,
        };
        NotificationSubscribeRequest { filter }
    }
}

/// A request to register a token. Only the key of the token is read.
#[derive(Debug, PartialEq, Eq)]
pub struct TokenRegisterRequest {
    pub token: Option<Token>,
}

/// The record that a registration created.
#[derive(Debug, PartialEq, Eq)]
pub struct TokenRegisterResponse {
    pub token: Option<Token>,
}

/// A request to refresh the token registered under a key.
#[derive(Debug, PartialEq, Eq)]
pub struct TokenUpdateRequest {
    pub key: Option<TokenKey>,
}

/// The record that an update wrote, and its time once more.
#[derive(Debug, PartialEq, Eq)]
pub struct TokenUpdateResponse {
    pub token: Option<Token>,
    pub timestamp: Option<Timestamp>,
}

/// A request to send a message.
#[derive(Debug, PartialEq, Eq)]
pub struct NotificationSendRequest {
    pub inner: Option<Message>,
}

/// The message that was sent, echoed.
#[derive(Debug, PartialEq, Eq)]
pub struct NotificationSendResponse {
    pub sent: Option<Message>,
}

/// An event of the token bus.
#[derive(Debug, PartialEq, Eq)]
pub struct TokenBroadcast {
    pub operation: Option<token_broadcast::Operation>,
}

impl View for TokenBroadcast {
    type V = Option<token_broadcast::OperationView>;

    open spec fn view(&self) -> Option<token_broadcast::OperationView> {
        self.operation.deep_view()
    }
}

impl Clone for TokenBroadcast {
    fn clone(&self) -> (res: Self)
        ensures
            res@ == self@,
    {
        let operation = match &self.operation {
            Some(operation) => Some(operation.clone()),
            None => None,
        };
        TokenBroadcast { operation }
    }
}

/// An event of the message bus.
#[derive(Debug, PartialEq, Eq)]
pub struct NotificationBroadcast {
    pub operation: Option<notification_broadcast::Operation>,
}

impl View for NotificationBroadcast {
    type V = Option<notification_broadcast::OperationView>;

    open spec fn view(&self) -> Option<notification_broadcast::OperationView> {
        self.operation.deep_view()
    }
}

impl Clone for NotificationBroadcast {
    fn clone(&self) -> (res: Self)
        ensures
            res@ == self@,
    {
        let operation = match &self.operation {
            Some(operation) => Some(operation.clone()),
            None => None,
        };
        NotificationBroadcast { operation }
    }
}

} // verus!
