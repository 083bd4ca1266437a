//! What a message event reports.

use crate::rpc::cm::{Message, MessageView};
use vstd::prelude::*;

verus! {

/// What the contracts see of a message operation.
pub enum OperationView {
    Send(MessageView),
}

/// A message was sent. Further operations may join this one.
#[derive(Debug, PartialEq, Eq)]
pub enum Operation {
    Send(Message),
}

impl View for Operation {
    type V = OperationView;

    open spec fn view(&self) -> OperationView {
        match self {
            Operation::Send(message) => OperationView::Send(message@),
        }
    }
}

impl DeepView for Operation {
    type V = OperationView;

    open spec fn deep_view(&self) -> OperationView {
        self@
    }
}

impl Clone for Operation {
    fn clone(&self) -> (res: Self)
        ensures
            res@ == self@,
    {
        match self {
            Operation::Send(message) => Operation::Send(message.clone()),
        }
    }
}

} // verus!
