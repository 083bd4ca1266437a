//! The answer a service gives when it refuses a request: a code and a short
//! message for the caller.

use vstd::prelude::*;
use vstd::string::StringExecFns;

verus! {

/// Why a request was refused.
#[derive(Debug, Clone, Copy, PartialEq, Eq, Structural)]
pub enum Code {
    /// A required part of the request was missing, or named an unknown token.
    InvalidArgument,
    /// The store, the bus or the push sink failed.
    Internal,
}

/// What the contracts see of a status.
pub struct StatusView {
    pub code: Code,
    pub message: Seq<char>,
}

/// A refusal: its code and its message.
#[derive(Debug, PartialEq, Eq)]
pub struct Status {
    pub code: Code,
    pub message: String,
}

impl View for Status {
    type V = StatusView;

    open spec fn view(&self) -> StatusView {
        StatusView { code: self.code, message: self.message@ }
    }
}

/// The refusal of a request that lacks the part called `field`.
pub open spec fn not_present(field: Seq<char>) -> StatusView {
    StatusView { code: Code::InvalidArgument, message: field + " not present"@ }
}

/// The refusal of an update that names a key the store does not hold.
pub open spec fn not_existing(key: Seq<char>) -> StatusView {
    StatusView { code: Code::InvalidArgument, message: "token `"@ + key + "` not existing"@ }
}

/// The refusal that stands for a store that failed for a reason of its own.
pub open spec fn database_failed() -> StatusView {
    StatusView { code: Code::Internal, message: "database failed"@ }
}

/// The refusal that stands for a bus that took no event.
pub open spec fn channel_broken() -> StatusView {
    StatusView { code: Code::Internal, message: "channel broken"@ }
}

impl Status {
    /// The caller's request was at fault.
    pub fn invalid_argument(message: String) -> (status: Self)
        ensures
            status@ == (StatusView { code: Code::InvalidArgument, message: message@ }),
    {
        Status { code: Code::InvalidArgument, message }
    }

    /// A required part of the request, called `field`, was missing.
    pub fn missing(field: &str) -> (status: Self)
        ensures
            status@ == not_present(field@),
    {
        let mut message = field.to_owned();
        message.append(" not present");
        Status::invalid_argument(message)
    }

    /// The service was at fault.
    pub fn internal(message: String) -> (status: Self)
        ensures
            status@ == (StatusView { code: Code::Internal, message: message@ }),
    {
        Status { code: Code::Internal, message }
    }
}

} // verus!
