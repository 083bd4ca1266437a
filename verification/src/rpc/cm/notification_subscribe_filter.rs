//! The predicate of a message subscription.

use crate::predicate::PredicateView;
use crate::rpc::cm::TokenKeys;
use vstd::prelude::*;

verus! {

/// One of three predicates over a set of keys. "Everything" carries a set
/// too, which is ignored.
#[derive(Debug, PartialEq, Eq)]
pub enum Predicate {
    Intersection(TokenKeys),
    Complement(TokenKeys),
    Union(TokenKeys),
}

impl View for Predicate {
    type V = PredicateView;

    open spec fn view(&self) -> PredicateView {
        match self {
            Predicate::Intersection(keys) => PredicateView::Intersection(keys@.to_set()),
            Predicate::Complement(keys) => PredicateView::Complement(keys@.to_set()),
            Predicate::Union(_) => PredicateView::Union,
        }
    }
}

impl DeepView for Predicate {
    type V = PredicateView;

    open spec fn deep_view(&self) -> PredicateView {
        self@
    }
}

impl Clone for Predicate {
    fn clone(&self) -> (res: Self)
        ensures
            res@ == self@,
    {
        match self {
            Predicate::Intersection(keys) => Predicate::Intersection(keys.clone()),
            Predicate::Complement(keys) => Predicate::Complement(keys.clone()),
            Predicate::Union(keys) => Predicate::Union(keys.clone()),
        }
    }
}

} // verus!
