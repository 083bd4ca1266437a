//! The push sink: what is sent to the upstream push provider for a message,
//! one request per addressee, and when the sending stops.
//!
//! The requests themselves leave the process from outside this library. The
//! sender asks `FCMService::send` what to do next, performs the request it is
//! given, and reports how that went.

use crate::model::token::TokenKey;
use std::collections::HashMap;
use vstd::prelude::*;
use vstd::string::StringExecFns;

verus! {

/// The payload of a message, as the contracts see it.
pub type Payload = Map<Seq<char>, Seq<char>>;

/// The credentials of the push provider.
pub struct FCMService {
    api_key: String,
}

/// One request to the push provider: deliver `data` to the endpoint `to`,
/// under the credentials `api_key`.
#[derive(Debug, PartialEq, Eq)]
pub struct PushRequest<'a> {
    pub api_key: &'a str,
    pub to: &'a str,
    pub data: &'a HashMap<String, String>,
}

/// What the contracts see of a request.
pub struct PushRequestView {
    pub api_key: Seq<char>,
    pub to: Seq<char>,
    pub data: Payload,
}

impl<'a> View for PushRequest<'a> {
    type V = PushRequestView;

    open spec fn view(&self) -> PushRequestView {
        PushRequestView { api_key: self.api_key@, to: self.to@, data: self.data.deep_view() }
    }
}

/// What the sender does next.
#[derive(Debug, PartialEq, Eq)]
pub enum PushStep<'a> {
    /// Perform this request, then ask again.
    Push(PushRequest<'a>),
    /// Stop: every addressee was served, or a request failed and its failure
    /// is the outcome of the whole send.
    Finish(Result<(), String>),
}

impl FCMService {
    /// The key under which requests are made.
    pub closed spec fn api_key(&self) -> Seq<char> {
        self.api_key@
    }

    /// A sink that makes its requests under `api_key`.
    pub fn new(api_key: &str) -> (res: Self)
        ensures
            res.api_key() == api_key@,
    {
        Self { api_key: api_key.to_owned() }
    }

    /// The sink, named with its key.
    pub fn describe(&self) -> (res: String)
        ensures
            res@ == "FCMService: "@ + self.api_key(),
    {
        let mut res = "FCMService: ".to_owned();
        res.append(self.api_key.as_str());
        res
    }

    /// The request that serves the addressee at position `index` of `target`.
    pub open spec fn request(
        &self,
        payload: Payload,
        target: Seq<Seq<char>>,
        index: int,
    ) -> PushRequestView {
        PushRequestView { api_key: self.api_key(), to: target[index], data: payload }
    }

    /// The next step of sending the payload `content` to the addressees
    /// `target`, of which the first `served` have had their request, the last
    /// of them with the outcome `last`.
    ///
    /// A failed request ends the send with that failure, and the addressees
    /// after it are not served. Otherwise the next addressee is served, in
    /// the order of `target`, until none is left.
    pub fn send<'a>(
        &'a self,
        content: &'a HashMap<String, String>,
        target: &'a Vec<TokenKey>,
        served: usize,
        last: Result<(), String>,
    ) -> (step: PushStep<'a>)
        ensures
            last is Err ==> step == PushStep::Finish(last),
            last is Ok && served < target.len() ==> (step matches PushStep::Push(request)
                && request@ == self.request(
                content.deep_view(),
                target.deep_view(),
                served as int,
            )),
            last is Ok && served >= target.len() ==> step == PushStep::Finish(Ok(())),
    {
        match last {
            Err(failure) => PushStep::Finish(Err(failure)),
            Ok(_) => {
                if served < target.len() {
                    PushStep::Push(
                        PushRequest {
                            api_key: self.api_key.as_str(),
                            to: target[served].key.as_str(),
                            data: content,
                        },
                    )
                } else {
                    PushStep::Finish(Ok(()))
                }
            },
        }
    }
}

} // verus!
