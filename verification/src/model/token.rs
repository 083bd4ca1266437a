//! Token keys and token records, as the registry holds them.

use crate::predicate::Key;
use crate::rpc::cm;
use vstd::prelude::*;
use vstd::std_specs::convert::FromSpecImpl;

verus! {

/// Opaque identifier of a push endpoint. Two keys are the same key when their
/// text is the same.
#[derive(Debug, Hash, PartialEq, Eq)]
pub struct TokenKey {
    pub key: String,
}

impl View for TokenKey {
    type V = Key;

    open spec fn view(&self) -> Key {
        self.key@
    }
}

impl DeepView for TokenKey {
    type V = Key;

    open spec fn deep_view(&self) -> Key {
        self@
    }
}

impl Clone for TokenKey {
    fn clone(&self) -> (res: Self)
        ensures
            res == *self,
    {
        TokenKey { key: self.key.clone() }
    }
}

impl TokenKey {
    /// The key with the text `key`.
    pub fn new(key: &str) -> (res: Self)
        ensures
            res@ == key@,
    {
        Self { key: key.to_owned() }
    }

    /// Whether two keys are the same key.
    pub fn same(&self, other: &TokenKey) -> (res: bool)
        ensures
            res == (self@ == other@),
    {
        self.key == other.key
    }
}

/// What the contracts see of a token record: the text of its key and the
/// second it was written.
pub struct TokenView {
    pub key: Key,
    pub timestamp: int,
}

/// A record of the registry: a key, and the time the record was written, in
/// whole seconds since the Unix epoch.
#[derive(Debug, Hash, PartialEq, Eq)]
pub struct Token {
    pub key: TokenKey,
    pub timestamp: i64,
}

impl View for Token {
    type V = TokenView;

    open spec fn view(&self) -> TokenView {
        TokenView { key: self.key@, timestamp: self.timestamp as int }
    }
}

impl DeepView for Token {
    type V = TokenView;

    open spec fn deep_view(&self) -> TokenView {
        self@
    }
}

impl Clone for Token {
    fn clone(&self) -> (res: Self)
        ensures
            res == *self,
    {
        Token { key: self.key.clone(), timestamp: self.timestamp }
    }
}

/// The wall clock: `std::time::SystemTime::now`, turned into a date by chrono's
/// `From<SystemTime> for DateTime<Utc>` and cut down to whole seconds since the
/// Unix epoch by `chrono::DateTime::timestamp`. A clock that reads before the
/// epoch gives a negative count. The clock is free to stand still or to step
/// back between two readings, so nothing is claimed of the value. The
/// conversion stops only on an instant outside chrono's calendar, more than
/// 262,000 years from the epoch, where no system clock stands.
#[verifier::external_body]
fn now_seconds() -> i64 {
    chrono::DateTime::<chrono::Utc>::from(std::time::SystemTime::now()).timestamp()
}

impl Token {
    /// A record for `key`, written now.
    pub fn new(key: TokenKey) -> (res: Self)
        ensures
            res.key == key,
    {
        Token::stamped(key, now_seconds())
    }

    /// A record for `key`, written at the given second.
    pub fn stamped(key: TokenKey, seconds: i64) -> (res: Self)
        ensures
            res == (Token { key, timestamp: seconds }),
    {
        Token { key, timestamp: seconds }
    }

    /// Reads a record off the wire.
    pub fn from_wire(source: cm::Token) -> (res: Self)
        requires
            source.key is Some,
            source.timestamp is Some,
        ensures
            res@ == (TokenView {
                key: source@.key->0,
                timestamp: source.timestamp->0.seconds as int,
            }),
    {
        Token {
            key: TokenKey::from(source.key.unwrap()),
            timestamp: source.timestamp.unwrap().seconds,
        }
    }
}

/// What the contracts see of an update.
pub struct TokenUpdateView {
    pub original: TokenView,
    pub delta: TokenView,
}

/// The record that an update found, and the record that it wrote in its place.
#[derive(Debug, Hash, PartialEq, Eq)]
pub struct TokenUpdate {
    pub original: Token,
    pub delta: Token,
}

impl View for TokenUpdate {
    type V = TokenUpdateView;

    open spec fn view(&self) -> TokenUpdateView {
        TokenUpdateView { original: self.original@, delta: self.delta@ }
    }
}

impl Clone for TokenUpdate {
    fn clone(&self) -> (res: Self)
        ensures
            res == *self,
    {
        TokenUpdate { original: self.original.clone(), delta: self.delta.clone() }
    }
}

impl TokenUpdate {
    /// Reads an update off the wire.
    pub fn from_wire(source: cm::TokenUpdate) -> (res: Self)
        requires
            source.original matches Some(t) && t.key is Some && t.timestamp is Some,
            source.delta matches Some(t) && t.key is Some && t.timestamp is Some,
        ensures
            res.original@ == (TokenView {
                key: source@.original->0.key->0,
                timestamp: source.original->0.timestamp->0.seconds as int,
            }),
            res.delta@ == (TokenView {
                key: source@.delta->0.key->0,
                timestamp: source.delta->0.timestamp->0.seconds as int,
            }),
    {
        TokenUpdate {
            original: Token::from_wire(source.original.unwrap()),
            delta: Token::from_wire(source.delta.unwrap()),
        }
    }
}

/// The wire form of a second: that second, and no fraction.
pub open spec fn wire_time(seconds: int) -> cm::Timestamp {
    cm::Timestamp { seconds: seconds as i64, nanos: 0 }
}

/// The wire form of a record.
pub open spec fn wire_token(token: TokenView) -> cm::TokenView {
    cm::TokenView { key: Some(token.key), timestamp: Some(wire_time(token.timestamp)) }
}

/// The wire record that a record converts to, down to its strings.
pub open spec fn exact_wire_token(token: Token) -> cm::Token {
    cm::Token {
        key: Some(cm::TokenKey { key: token.key.key }),
        timestamp: Some(cm::Timestamp { seconds: token.timestamp, nanos: 0 }),
    }
}

/// The wire form of an update.
pub open spec fn wire_update(update: TokenUpdateView) -> cm::TokenUpdateView {
    cm::TokenUpdateView {
        original: Some(wire_token(update.original)),
        delta: Some(wire_token(update.delta)),
    }
}

impl From<TokenKey> for cm::TokenKey {
    fn from(source: TokenKey) -> (res: Self)
        ensures
            res@ == source@,
    {
        cm::TokenKey { key: source.key }
    }
}

impl FromSpecImpl<TokenKey> for cm::TokenKey {
    open spec fn obeys_from_spec() -> bool {
        true
    }

    open spec fn from_spec(source: TokenKey) -> Self {
        cm::TokenKey { key: source.key }
    }
}

impl From<&TokenKey> for cm::TokenKey {
    fn from(source: &TokenKey) -> (res: Self)
        ensures
            res@ == source@,
    {
        cm::TokenKey { key: source.key.clone() }
    }
}

impl FromSpecImpl<&TokenKey> for cm::TokenKey {
    open spec fn obeys_from_spec() -> bool {
        true
    }

    open spec fn from_spec(source: &TokenKey) -> Self {
        cm::TokenKey { key: source.key }
    }
}

impl From<cm::TokenKey> for TokenKey {
    fn from(source: cm::TokenKey) -> (res: Self)
        ensures
            res@ == source@,
    {
        TokenKey { key: source.key }
    }
}

impl FromSpecImpl<cm::TokenKey> for TokenKey {
    open spec fn obeys_from_spec() -> bool {
        true
    }

    open spec fn from_spec(source: cm::TokenKey) -> Self {
        TokenKey { key: source.key }
    }
}

impl From<Token> for cm::Token {
    fn from(source: Token) -> (res: Self)
        ensures
            res@ == wire_token(source@),
    {
        cm::Token {
            key: Some(cm::TokenKey::from(source.key)),
            timestamp: Some(cm::Timestamp { seconds: source.timestamp, nanos: 0 }),
        }
    }
}

impl FromSpecImpl<Token> for cm::Token {
    open spec fn obeys_from_spec() -> bool {
        true
    }

    open spec fn from_spec(source: Token) -> Self {
        exact_wire_token(source)
    }
}

impl From<&Token> for cm::Token {
    fn from(source: &Token) -> (res: Self)
        ensures
            res@ == wire_token(source@),
    {
        cm::Token {
            key: Some(cm::TokenKey::from(&source.key)),
            timestamp: Some(cm::Timestamp { seconds: source.timestamp, nanos: 0 }),
        }
    }
}

impl FromSpecImpl<&Token> for cm::Token {
    open spec fn obeys_from_spec() -> bool {
        true
    }

    open spec fn from_spec(source: &Token) -> Self {
        exact_wire_token(*source)
    }
}

impl From<TokenUpdate> for cm::TokenUpdate {
    fn from(source: TokenUpdate) -> (res: Self)
        ensures
            res@ == wire_update(source@),
    {
        cm::TokenUpdate {
            original: Some(cm::Token::from(source.original)),
            delta: Some(cm::Token::from(source.delta)),
        }
    }
}

impl FromSpecImpl<TokenUpdate> for cm::TokenUpdate {
    open spec fn obeys_from_spec() -> bool {
        true
    }

    open spec fn from_spec(source: TokenUpdate) -> Self {
        cm::TokenUpdate {
            original: Some(exact_wire_token(source.original)),
            delta: Some(exact_wire_token(source.delta)),
        }
    }
}

impl From<TokenKey> for Token {
    fn from(source: TokenKey) -> (res: Self)
        ensures
            res.key == source,
    {
        Token::new(source)
    }
}

impl FromSpecImpl<TokenKey> for Token {
    open spec fn obeys_from_spec() -> bool {
        false
    }

    open spec fn from_spec(source: TokenKey) -> Self {
        arbitrary()
    }
}

impl From<cm::TokenKeys> for Vec<TokenKey> {
    fn from(source: cm::TokenKeys) -> (res: Self)
        ensures
            res.deep_view() == source@,
    {
        let mut res: Vec<TokenKey> = Vec::new();
        let mut i: usize = 0;
        while i < source.keys.len()
            invariant
                i <= source.keys.len(),
                res.len() == i,
                forall|j: int| 0 <= j < i ==> res[j]@ == source.keys[j]@,
            decreases source.keys.len() - i,
        {
            res.push(TokenKey { key: source.keys[i].key.clone() });
            i += 1;
        }
        assert(res.deep_view() =~= source@);
        res
    }
}

impl FromSpecImpl<cm::TokenKeys> for Vec<TokenKey> {
    open spec fn obeys_from_spec() -> bool {
        false
    }

    open spec fn from_spec(source: cm::TokenKeys) -> Self {
        arbitrary()
    }
}

impl From<&[TokenKey]> for cm::TokenKeys {
    fn from(source: &[TokenKey]) -> (res: Self)
        ensures
            res@ == source.deep_view(),
    {
        let mut keys: Vec<cm::TokenKey> = Vec::new();
        let mut i: usize = 0;
        while i < source.len()
            invariant
                i <= source.len(),
                keys.len() == i,
                forall|j: int| 0 <= j < i ==> keys[j]@ == source[j]@,
            decreases source.len() - i,
        {
            keys.push(cm::TokenKey::from(&source[i]));
            i += 1;
        }
        assert(keys.deep_view() =~= source.deep_view());
        cm::TokenKeys { keys }
    }
}

impl FromSpecImpl<&[TokenKey]> for cm::TokenKeys {
    open spec fn obeys_from_spec() -> bool {
        false
    }

    open spec fn from_spec(source: &[TokenKey]) -> Self {
        arbitrary()
    }
}

/// Whether every record of `tokens` has its key and its time.
pub open spec fn complete(tokens: Seq<cm::TokenView>) -> bool {
    forall|i: int|
        0 <= i < tokens.len() ==> (#[trigger] tokens[i]).key is Some && tokens[i].timestamp is Some
}

/// Reads a list of records off the wire.
pub fn tokens_from_wire(source: cm::Tokens) -> (res: Vec<Token>)
    requires
        complete(source@),
    ensures
        res.len() == source@.len(),
        forall|i: int|
            0 <= i < res.len() ==> (#[trigger] res[i])@ == (TokenView {
                key: source@[i].key->0,
                timestamp: source@[i].timestamp->0.seconds as int,
            }),
{
    let mut res: Vec<Token> = Vec::new();
    let mut i: usize = 0;
    while i < source.tokens.len()
        invariant
            complete(source@),
            i <= source.tokens.len(),
            res.len() == i,
            forall|j: int|
                0 <= j < i ==> (#[trigger] res[j])@ == (TokenView {
                    key: source@[j].key->0,
                    timestamp: source@[j].timestamp->0.seconds as int,
                }),
        decreases source.tokens.len() - i,
    {
        assert(source@[i as int] == source.tokens[i as int]@);
        res.push(Token::from_wire(source.tokens[i].clone()));
        i += 1;
    }
    res
}

impl From<&[Token]> for cm::Tokens {
    fn from(source: &[Token]) -> (res: Self)
        ensures
            res@ == source.deep_view().map_values(|token: TokenView| wire_token(token)),
    {
        let mut tokens: Vec<cm::Token> = Vec::new();
        let mut i: usize = 0;
        while i < source.len()
            invariant
                i <= source.len(),
                tokens.len() == i,
                forall|j: int| 0 <= j < i ==> tokens[j]@ == wire_token(source[j]@),
            decreases source.len() - i,
        {
            tokens.push(cm::Token::from(&source[i]));
            i += 1;
        }
        assert(tokens.deep_view() =~= source.deep_view().map_values(
            |token: TokenView| wire_token(token),
        ));
        cm::Tokens { tokens }
    }
}

impl FromSpecImpl<&[Token]> for cm::Tokens {
    open spec fn obeys_from_spec() -> bool {
        false
    }

    open spec fn from_spec(source: &[Token]) -> Self {
        arbitrary()
    }
}

} // verus!
