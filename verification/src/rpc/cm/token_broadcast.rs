//! What a token event reports.

use crate::rpc::cm::{Token, TokenUpdate, TokenUpdateView, TokenView};
use vstd::prelude::*;

verus! {

/// What the contracts see of a token operation.
pub enum OperationView {
    Addition(TokenView),
    Update(TokenUpdateView),
    Invalidation(TokenView),
}

/// A token was registered, refreshed or removed.
#[derive(Debug, PartialEq, Eq)]
pub enum Operation {
    Addition(Token),
    Update(TokenUpdate),
    Invalidation(Token),
}

impl View for Operation {
    type V = OperationView;

    open spec fn view(&self) -> OperationView {
        match self {
            Operation::Addition(token) => OperationView::Addition(token@),
            Operation::Update(update) => OperationView::Update(update@),
            Operation::Invalidation(token) => OperationView::Invalidation(token@),
        }
    }
}

impl DeepView for Operation {
    type V = OperationView;

    open spec fn deep_view(&self) -> OperationView {
        self@
    }
}

impl Clone for Operation {
    fn clone(&self) -> (res: Self)
        ensures
            res@ == self@,
    {
        match self {
            Operation::Addition(token) => Operation::Addition(token.clone()),
            Operation::Update(update) => Operation::Update(update.clone()),
            Operation::Invalidation(token) => Operation::Invalidation(token.clone()),
        }
    }
}

} // verus!
