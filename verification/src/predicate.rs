//! Set predicates over token keys.
//!
//! A subscriber states its interest as one predicate over a set `S` of keys.
//! A token event carries one key; a message carries the set of keys it is
//! addressed to. This module says, in mathematical terms, which events a
//! predicate lets through.

use vstd::prelude::*;

verus! {

/// A token key as the contracts see it: its text.
pub type Key = Seq<char>;

/// What a subscriber asked for, with the wire's repetitions and order of keys
/// forgotten.
pub enum PredicateView {
    /// Interest in the keys of the set.
    Intersection(Set<Key>),
    /// Interest in every key outside the set.
    Complement(Set<Key>),
    /// Interest in everything.
    Union,
}

/// Whether an event about the single key `key` passes. A request without a
/// predicate lets nothing through.
pub open spec fn matches_one(predicate: Option<PredicateView>, key: Key) -> bool {
    match predicate {
        None => false,
        Some(PredicateView::Intersection(s)) => s.contains(key),
        Some(PredicateView::Complement(s)) => !s.contains(key),
        Some(PredicateView::Union) => true,
    }
}

/// Whether every key of `keys` passes on its own.
pub open spec fn all_match(predicate: Option<PredicateView>, keys: Set<Key>) -> bool {
    forall|k: Key| keys.contains(k) ==> matches_one(predicate, k)
}

/// Whether a message addressed to `keys` passes. "Everything" passes whatever
/// the addressees; the two set predicates want at least one addressee and
/// every addressee to pass on its own.
pub open spec fn matches_many(predicate: Option<PredicateView>, keys: Set<Key>) -> bool {
    match predicate {
        None => false,
        Some(PredicateView::Union) => true,
        Some(_) => keys != Set::<Key>::empty() && all_match(predicate, keys),
    }
}

/// For an intersection predicate, a message to at least one addressee passes
/// exactly when its addressees all lie in the set.
pub proof fn lemma_intersection_is_containment(s: Set<Key>, keys: Set<Key>)
    requires
        keys != Set::<Key>::empty(),
    ensures
        matches_many(Some(PredicateView::Intersection(s)), keys) <==> keys.subset_of(s),
{
}

/// For a complement predicate, a message to at least one addressee passes
/// exactly when none of its addressees lies in the set.
pub proof fn lemma_complement_is_empty_intersection(s: Set<Key>, keys: Set<Key>)
    requires
        keys != Set::<Key>::empty(),
    ensures
        matches_many(Some(PredicateView::Complement(s)), keys) <==> keys.intersect(s)
            == Set::<Key>::empty(),
{
    let predicate = Some(PredicateView::Complement(s));
    if keys.intersect(s) == Set::<Key>::empty() {
        assert forall|k: Key| keys.contains(k) implies matches_one(predicate, k) by {
            assert(!keys.intersect(s).contains(k));
        }
    }
    if matches_many(predicate, keys) {
        assert forall|k: Key| !keys.intersect(s).contains(k) by {
            if keys.contains(k) {
                assert(matches_one(predicate, k));
            }
        }
        assert(keys.intersect(s) =~= Set::<Key>::empty());
    }
}

/// A single key is the one-element case of a set of addressees.
pub proof fn lemma_one_is_many_of_singleton(predicate: Option<PredicateView>, key: Key)
    ensures
        matches_one(predicate, key) <==> matches_many(predicate, set![key]),
{
    assert(set![key].contains(key));
    assert(set![key] != Set::<Key>::empty());
}

} // verus!
