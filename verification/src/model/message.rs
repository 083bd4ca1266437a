//! Messages, as the services hold them.

use crate::model::token::{wire_time, TokenKey};
use crate::predicate::Key;
use crate::rpc::cm;
use std::collections::HashMap;
use vstd::prelude::*;
use vstd::std_specs::convert::FromSpecImpl;

verus! {

/// What the contracts see of a message.
pub struct MessageView {
    pub content: Map<Seq<char>, Seq<char>>,
    pub codomain: Seq<Key>,
    pub timestamp: int,
}

/// A producer's message: its payload, the keys it is addressed to (its
/// codomain) and the second it carries.
pub struct Message {
    pub content: HashMap<String, String>,
    pub codomain: Vec<TokenKey>,
    pub timestamp: i64,
}

impl View for Message {
    type V = MessageView;

    open spec fn view(&self) -> MessageView {
        MessageView {
            content: self.content.deep_view(),
            codomain: self.codomain.deep_view(),
            timestamp: self.timestamp as int,
        }
    }
}

/// The wire form of a message.
pub open spec fn wire_message(message: MessageView) -> cm::MessageView {
    cm::MessageView {
        content: message.content,
        codomain: Some(message.codomain),
        timestamp: Some(wire_time(message.timestamp)),
    }
}

impl Message {
    /// Reads a message off the wire.
    pub fn from_wire(source: cm::Message) -> (res: Self)
        requires
            source.codomain is Some,
            source.timestamp is Some,
        ensures
            res@ == (MessageView {
                content: source@.content,
                codomain: source@.codomain->0,
                timestamp: source.timestamp->0.seconds as int,
            }),
    {
        Message {
            content: source.content,
            codomain: Vec::<TokenKey>::from(source.codomain.unwrap()),
            timestamp: source.timestamp.unwrap().seconds,
        }
    }

    /// Reads a message off the wire and leaves the wire form in place.
    pub fn from_wire_ref(source: &cm::Message) -> (res: Self)
        requires
            source.codomain is Some,
            source.timestamp is Some,
        ensures
            res@ == (MessageView {
                content: source@.content,
                codomain: source@.codomain->0,
                timestamp: source.timestamp->0.seconds as int,
            }),
    {
        Message::from_wire(source.clone())
    }
}

impl From<Message> for cm::Message {
    fn from(source: Message) -> (res: Self)
        ensures
            res@ == wire_message(source@),
    {
        let codomain = cm::TokenKeys::from(source.codomain.as_slice());
        cm::Message {
            content: source.content,
            codomain: Some(codomain),
            timestamp: Some(cm::Timestamp { seconds: source.timestamp, nanos: 0 }),
        }
    }
}

impl FromSpecImpl<Message> for cm::Message {
    open spec fn obeys_from_spec() -> bool {
        false
    }

    open spec fn from_spec(source: Message) -> Self {
        arbitrary()
    }
}

impl From<&Message> for cm::Message {
    fn from(source: &Message) -> (res: Self)
        ensures
            res@ == wire_message(source@),
    {
        let codomain = cm::TokenKeys::from(source.codomain.as_slice());
        let content = source.content.clone();
        proof {
            reveal(vstd::std_specs::hash::hash_map_deep_view_impl);
            assert(content.deep_view() =~= source.content.deep_view());
        }
        cm::Message {
            content,
            codomain: Some(codomain),
            timestamp: Some(cm::Timestamp { seconds: source.timestamp, nanos: 0 }),
        }
    }
}

impl FromSpecImpl<&Message> for cm::Message {
    open spec fn obeys_from_spec() -> bool {
        false
    }

    open spec fn from_spec(source: &Message) -> Self {
        arbitrary()
    }
}

} // verus!
