//! The token store: at most one record per key, with insert, update and
//! invalidate as its only mutations.

use crate::model::token::{Token, TokenKey, TokenUpdate, TokenView};
use crate::predicate::Key;
use vstd::prelude::*;

verus! {

/// Why a store refused an operation.
#[derive(Debug, PartialEq, Eq)]
pub enum TokenDbError {
    /// An update named a key that the store does not hold.
    TokenNotPresent(TokenKey),
    /// The store failed for a reason of its own.
    Unknown,
}

impl Clone for TokenDbError {
    fn clone(&self) -> (res: Self)
        ensures
            res == *self,
    {
        match self {
            TokenDbError::TokenNotPresent(key) => TokenDbError::TokenNotPresent(key.clone()),
            TokenDbError::Unknown => TokenDbError::Unknown,
        }
    }
}

/// What a token service asks of the store behind it.
///
/// `records` is the store's content: the record held under each key. Each
/// operation says how it changes the content when it succeeds. A store that is
/// `dependable` fails only where the operation itself says so: never on
/// insert or invalidate, and on update exactly when the key is unknown.
pub trait TokenDb {
    /// The record held under each key.
    spec fn records(&self) -> Map<Key, TokenView>;

    /// Whether this kind of store fails for no reason but an unknown key.
    spec fn dependable() -> bool;

    /// Writes a fresh record under `token`, in place of the one that may be
    /// there, and returns it.
    fn insert(&mut self, token: TokenKey) -> (res: Result<Token, TokenDbError>)
        ensures
            res matches Ok(written) ==> written@.key == token@ && final(self).records() == old(
                self,
            ).records().insert(token@, written@),
            Self::dependable() ==> res is Ok,
    ;

    /// Replaces the record under `token` by a fresh one and returns both. The
    /// record returned as the original is the one that was replaced.
    fn update(&mut self, token: TokenKey) -> (res: Result<TokenUpdate, TokenDbError>)
        ensures
            res matches Ok(update) ==> {
                &&& old(self).records().contains_key(token@)
                &&& update@.original == old(self).records()[token@]
                &&& update@.original.key == token@
                &&& update@.delta.key == token@
                &&& final(self).records() == old(self).records().insert(token@, update@.delta)
            },
            res matches Err(TokenDbError::TokenNotPresent(missing)) ==> {
                &&& missing@ == token@
                &&& !old(self).records().contains_key(token@)
                &&& final(self).records() == old(self).records()
            },
            Self::dependable() ==> (res is Ok <==> old(self).records().contains_key(token@)),
            Self::dependable() ==> !(res matches Err(TokenDbError::Unknown)),
    ;

    /// Removes the record under `token`, if there is one.
    fn invalidate(&mut self, token: TokenKey) -> (res: Result<(), TokenDbError>)
        ensures
            res is Ok ==> final(self).records() == old(self).records().remove(token@),
            Self::dependable() ==> res is Ok,
    ;
}

/// Whether no two records of `records` share a key.
spec fn distinct_keys(records: Seq<Token>) -> bool {
    forall|i: int, j: int|
        0 <= i < j < records.len() ==> (#[trigger] records[i]).key@ != (#[trigger] records[j]).key@
}

/// Whether `records` holds a record under `key`.
spec fn holds(records: Seq<Token>, key: Key) -> bool {
    exists|i: int| 0 <= i < records.len() && (#[trigger] records[i]).key@ == key
}

/// The map from each key of `records` to the record under it.
spec fn by_key(records: Seq<Token>) -> Map<Key, TokenView> {
    Map::new(
        |key: Key| holds(records, key),
        |key: Key|
            records[choose|i: int| 0 <= i < records.len() && (#[trigger] records[i]).key@ == key]@,
    )
}

proof fn lemma_by_key_at(records: Seq<Token>, i: int)
    requires
        distinct_keys(records),
        0 <= i < records.len(),
    ensures
        by_key(records).contains_key(records[i].key@),
        by_key(records)[records[i].key@] == records[i]@,
{
    let key = records[i].key@;
    let chosen = choose|j: int| 0 <= j < records.len() && (#[trigger] records[j]).key@ == key;
    assert(chosen == i);
}

proof fn lemma_by_key_push(records: Seq<Token>, token: Token)
    requires
        distinct_keys(records),
        !holds(records, token.key@),
    ensures
        distinct_keys(records.push(token)),
        by_key(records.push(token)) == by_key(records).insert(token.key@, token@),
{
    let grown = records.push(token);
    assert(distinct_keys(grown)) by {
        assert forall|i: int, j: int| 0 <= i < j < grown.len() implies (#[trigger] grown[i]).key@
            != (#[trigger] grown[j]).key@ by {
            if j == records.len() {
                assert(records[i].key@ != token.key@);
            } else {
                assert(records[i].key@ != records[j].key@);
            }
        }
    }
    assert forall|key: Key| holds(grown, key) <==> (holds(records, key) || key == token.key@) by {
        if holds(grown, key) {
            let i = choose|i: int| 0 <= i < grown.len() && (#[trigger] grown[i]).key@ == key;
            if i < records.len() {
                assert(records[i].key@ == key);
            }
        }
        if holds(records, key) {
            let i = choose|i: int| 0 <= i < records.len() && (#[trigger] records[i]).key@ == key;
            assert(grown[i].key@ == key);
        }
        if key == token.key@ {
            assert(grown[records.len() as int].key@ == key);
        }
    }
    assert forall|key: Key| holds(grown, key) implies by_key(grown)[key] == by_key(
        records,
    ).insert(token.key@, token@)[key] by {
        let i = choose|i: int| 0 <= i < grown.len() && (#[trigger] grown[i]).key@ == key;
        lemma_by_key_at(grown, i);
        if i < records.len() {
            lemma_by_key_at(records, i);
        }
    }
    assert(by_key(grown) =~= by_key(records).insert(token.key@, token@));
}

proof fn lemma_by_key_update(records: Seq<Token>, i: int, token: Token)
    requires
        distinct_keys(records),
        0 <= i < records.len(),
        records[i].key@ == token.key@,
    ensures
        distinct_keys(records.update(i, token)),
        by_key(records.update(i, token)) == by_key(records).insert(token.key@, token@),
{
    let changed = records.update(i, token);
    assert(distinct_keys(changed)) by {
        assert forall|a: int, b: int| 0 <= a < b < changed.len() implies (#[trigger] changed[
            a
        ]).key@ != (#[trigger] changed[b]).key@ by {
            assert(records[a].key@ != records[b].key@);
        }
    }
    assert forall|key: Key| holds(changed, key) <==> holds(records, key) by {
        if holds(changed, key) {
            let j = choose|j: int| 0 <= j < changed.len() && (#[trigger] changed[j]).key@ == key;
            assert(records[j].key@ == key);
        }
        if holds(records, key) {
            let j = choose|j: int| 0 <= j < records.len() && (#[trigger] records[j]).key@ == key;
            assert(changed[j].key@ == key);
        }
    }
    lemma_by_key_at(records, i);
    assert forall|key: Key| holds(changed, key) implies by_key(changed)[key] == by_key(
        records,
    ).insert(token.key@, token@)[key] by {
        let j = choose|j: int| 0 <= j < changed.len() && (#[trigger] changed[j]).key@ == key;
        lemma_by_key_at(changed, j);
        if j != i {
            lemma_by_key_at(records, j);
            assert(records[j].key@ != records[i].key@);
        }
    }
    assert(by_key(changed) =~= by_key(records).insert(token.key@, token@));
}

proof fn lemma_by_key_remove(records: Seq<Token>, i: int)
    requires
        distinct_keys(records),
        0 <= i < records.len(),
    ensures
        distinct_keys(records.remove(i)),
        by_key(records.remove(i)) == by_key(records).remove(records[i].key@),
{
    let rest = records.remove(i);
    let gone = records[i].key@;
    assert forall|a: int| 0 <= a < rest.len() implies (#[trigger] rest[a]) == records[if a < i {
        a
    } else {
        a + 1
    }] by {}
    assert(distinct_keys(rest)) by {
        assert forall|a: int, b: int| 0 <= a < b < rest.len() implies (#[trigger] rest[a]).key@
            != (#[trigger] rest[b]).key@ by {
            let a0 = if a < i { a } else { a + 1 };
            let b0 = if b < i { b } else { b + 1 };
            assert(records[a0].key@ != records[b0].key@);
        }
    }
    assert forall|key: Key| holds(rest, key) <==> (holds(records, key) && key != gone) by {
        if holds(rest, key) {
            let a = choose|a: int| 0 <= a < rest.len() && (#[trigger] rest[a]).key@ == key;
            let a0 = if a < i { a } else { a + 1 };
            assert(records[a0].key@ == key);
            if a0 < i {
                assert(records[a0].key@ != records[i].key@);
            } else {
                assert(records[i].key@ != records[a0].key@);
            }
        }
        if holds(records, key) && key != gone {
            let j = choose|j: int| 0 <= j < records.len() && (#[trigger] records[j]).key@ == key;
            let a = if j < i { j } else { j - 1 };
            assert(rest[a].key@ == key);
        }
    }
    assert forall|key: Key| holds(rest, key) implies by_key(rest)[key] == by_key(records).remove(
        gone,
    )[key] by {
        let a = choose|a: int| 0 <= a < rest.len() && (#[trigger] rest[a]).key@ == key;
        let a0 = if a < i { a } else { a + 1 };
        lemma_by_key_at(rest, a);
        lemma_by_key_at(records, a0);
    }
    assert(by_key(rest) =~= by_key(records).remove(gone));
}

/// A token store that lives in memory.
///
/// The records are kept in a list in which no key occurs twice: vstd gives a
/// hash map keyed by text no specification, so nothing could be proved of one.
#[derive(Debug)]
pub struct TokenDbInMemory {
    db: Vec<Token>,
}

impl View for TokenDbInMemory {
    type V = Map<Key, TokenView>;

    closed spec fn view(&self) -> Map<Key, TokenView> {
        by_key(self.db@)
    }
}

impl TokenDbInMemory {
    #[verifier::type_invariant]
    spec fn one_record_per_key(self) -> bool {
        distinct_keys(self.db@)
    }

    /// An empty store.
    pub fn new() -> (res: Self)
        ensures
            res@ == Map::<Key, TokenView>::empty(),
    {
        let res = TokenDbInMemory { db: Vec::new() };
        assert(res@ =~= Map::<Key, TokenView>::empty());
        res
    }

    /// Moves the records out, to be changed and put back.
    fn take_records(&mut self) -> (records: Vec<Token>)
        ensures
            records@ == old(self).db@,
            final(self).db@ == Seq::<Token>::empty(),
    {
        let mut records: Vec<Token> = Vec::new();
        core::mem::swap(&mut self.db, &mut records);
        records
    }

    /// Where the record under `key` stands, if there is one.
    fn position(&self, key: &TokenKey) -> (res: Option<usize>)
        ensures
            res matches Some(i) ==> i < self.db.len() && self.db[i as int].key@ == key@,
            res is None ==> !holds(self.db@, key@),
    {
        let mut i: usize = 0;
        while i < self.db.len()
            invariant
                i <= self.db.len(),
                forall|j: int| 0 <= j < i ==> (#[trigger] self.db[j]).key@ != key@,
            decreases self.db.len() - i,
        {
            if self.db[i].key.same(key) {
                return Some(i);
            }
            i += 1;
        }
        None
    }

    /// The record under `key`, if the store holds one.
    pub fn get(&self, key: &TokenKey) -> (res: Option<Token>)
        ensures
            res matches Some(found) ==> self@.contains_key(key@) && found@ == self@[key@]
                && found@.key == key@,
            res is None ==> !self@.contains_key(key@),
    {
        proof {
            use_type_invariant(self);
        }
        match self.position(key) {
            Some(i) => {
                proof {
                    lemma_by_key_at(self.db@, i as int);
                }
                Some(self.db[i].clone())
            },
            None => None,
        }
    }

    /// The number of records.
    pub fn len(&self) -> (res: usize)
        ensures
            res == self@.len(),
            self@.dom().finite(),
    {
        proof {
            use_type_invariant(self);
            lemma_by_key_len(self.db@);
        }
        self.db.len()
    }

    /// Writes the record `{token, seconds}` under `token`, in place of the one
    /// that may be there, and returns it.
    pub fn insert_at(&mut self, token: TokenKey, seconds: i64) -> (res: Token)
        ensures
            res@ == (TokenView { key: token@, timestamp: seconds as int }),
            final(self)@ == old(self)@.insert(token@, res@),
    {
        proof {
            use_type_invariant(&*self);
        }
        let fresh = Token::stamped(token, seconds);
        let written = fresh.clone();
        match self.position(&fresh.key) {
            Some(i) => {
                proof {
                    lemma_by_key_update(self.db@, i as int, fresh);
                }
                let mut records = self.take_records();
                records.set(i, fresh);
                self.db = records;
            },
            None => {
                proof {
                    lemma_by_key_push(self.db@, fresh);
                }
                let mut records = self.take_records();
                records.push(fresh);
                self.db = records;
            },
        }
        written
    }

    /// Replaces the record under `token` by `{token, seconds}` and returns
    /// both, or refuses where the store holds no record under `token`.
    pub fn update_at(&mut self, token: TokenKey, seconds: i64) -> (res: Result<
        TokenUpdate,
        TokenDbError,
    >)
        ensures
            old(self)@.contains_key(token@) ==> ({
                &&& res matches Ok(update)
                &&& update@.original == old(self)@[token@]
                &&& update@.original.key == token@
                &&& update@.delta == (TokenView { key: token@, timestamp: seconds as int })
                &&& final(self)@ == old(self)@.insert(token@, update@.delta)
                &&& final(self)@[token@] == update@.delta
                &&& old(self)@[token@].timestamp <= seconds ==> update@.delta.timestamp
                    >= update@.original.timestamp
            }),
            !old(self)@.contains_key(token@) ==> ({
                &&& res matches Err(TokenDbError::TokenNotPresent(missing))
                &&& missing@ == token@
                &&& final(self)@ == old(self)@
            }),
    {
        proof {
            use_type_invariant(&*self);
        }
        match self.position(&token) {
            Some(i) => {
                let original = self.db[i].clone();
                let delta = Token::stamped(token, seconds);
                proof {
                    lemma_by_key_at(self.db@, i as int);
                    lemma_by_key_update(self.db@, i as int, delta);
                }
                let mut records = self.take_records();
                records.set(i, delta.clone());
                self.db = records;
                Ok(TokenUpdate { original, delta })
            },
            None => Err(TokenDbError::TokenNotPresent(token)),
        }
    }
}

proof fn lemma_by_key_len(records: Seq<Token>)
    requires
        distinct_keys(records),
    ensures
        by_key(records).dom().finite(),
        by_key(records).len() == records.len(),
    decreases records.len(),
{
    if records.len() == 0 {
        assert(by_key(records).dom() =~= Set::<Key>::empty());
    } else {
        let last = records.last();
        let front = records.drop_last();
        assert(distinct_keys(front)) by {
            assert forall|i: int, j: int| 0 <= i < j < front.len() implies (#[trigger] front[
                i
            ]).key@ != (#[trigger] front[j]).key@ by {
                assert(records[i].key@ != records[j].key@);
            }
        }
        assert(!holds(front, last.key@)) by {
            if holds(front, last.key@) {
                let i = choose|i: int| 0 <= i < front.len() && (#[trigger] front[i]).key@
                    == last.key@;
                assert(records[i].key@ != records[records.len() - 1].key@);
            }
        }
        lemma_by_key_len(front);
        lemma_by_key_push(front, last);
        assert(front.push(last) =~= records);
        assert(!by_key(front).dom().contains(last.key@));
    }
}

impl Default for TokenDbInMemory {
    fn default() -> (res: Self)
        ensures
            res@ == Map::<Key, TokenView>::empty(),
    {
        Self::new()
    }
}

impl TokenDb for TokenDbInMemory {
    open spec fn records(&self) -> Map<Key, TokenView> {
        self@
    }

    open spec fn dependable() -> bool {
        true
    }

    fn insert(&mut self, token: TokenKey) -> (res: Result<Token, TokenDbError>) {
        let fresh = Token::new(token);
        let written = self.insert_at(fresh.key, fresh.timestamp);
        Ok(written)
    }

    fn update(&mut self, token: TokenKey) -> (res: Result<TokenUpdate, TokenDbError>) {
        let fresh = Token::new(token);
        self.update_at(fresh.key, fresh.timestamp)
    }

    fn invalidate(&mut self, token: TokenKey) -> (res: Result<(), TokenDbError>) {
        proof {
            use_type_invariant(&*self);
        }
        match self.position(&token) {
            Some(i) => {
                proof {
                    lemma_by_key_at(self.db@, i as int);
                    lemma_by_key_remove(self.db@, i as int);
                }
                let mut records = self.take_records();
                let _ = records.remove(i);
                self.db = records;
            },
            None => {
                assert(self@.remove(token@) =~= self@);
            },
        }
        Ok(())
    }
}

} // verus!
