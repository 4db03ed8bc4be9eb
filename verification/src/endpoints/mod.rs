//! What the web endpoints decide: the requests they send to the handler and
//! how they turn the handler's answers into HTTP replies.

pub mod auth;
pub mod processes;

use vstd::prelude::*;
use crate::communication::protocols::{RequestResult, RequestResultStatus};

verus! {

/// The HTTP statuses that the endpoints reply with.
#[derive(Clone, Copy, Debug, PartialEq, Eq, Structural)]
pub enum HttpStatus {
    Success,
    InternalServerError,
}

/// An HTTP reply: a status and an optional text body.
#[derive(Debug)]
pub struct HttpReply {
    pub status: HttpStatus,
    pub body: Option<String>,
}

pub open spec fn opt_view(s: Option<String>) -> Option<Seq<char>> {
    match s {
        Some(b) => Some(b@),
        None => None,
    }
}

pub open spec fn reply_view(r: HttpReply) -> (HttpStatus, Option<Seq<char>>) {
    (r.status, opt_view(r.body))
}

/// The reply that an answer from the handler settles: a success is `Ok`
/// without a body, a failure is an internal error with the answer's body,
/// and a status update settles nothing.
pub open spec fn answer_reply(a: RequestResult) -> Option<(HttpStatus, Option<Seq<char>>)> {
    match a.status {
        RequestResultStatus::Success => Some((HttpStatus::Success, None)),
        RequestResultStatus::Failed => Some((HttpStatus::InternalServerError, opt_view(a.body))),
        RequestResultStatus::Update => None,
    }
}

/// Waiting for the handler's answer to an action: each update that arrives
/// uses up one round; the wait gives up when no rounds are left.
#[derive(Clone, Copy, Debug)]
pub struct ResponseWait {
    pub rounds_left: usize,
}

impl ResponseWait {
    /// A wait of `2 * timeout` rounds (half a second each).
    pub fn new(timeout: usize) -> (w: ResponseWait)
        requires
            timeout * 2 <= usize::MAX,
        ensures
            w.rounds_left == timeout * 2,
    {
        ResponseWait { rounds_left: timeout * 2 }
    }

    /// Whether the wait goes on.
    pub fn waiting(&self) -> (b: bool)
        ensures
            b == (self.rounds_left > 0),
    {
        self.rounds_left > 0
    }

    /// Takes one answer: gives the reply that it settles, or uses up a round.
    pub fn on_answer(&mut self, answer: RequestResult) -> (r: Option<HttpReply>)
        requires
            old(self).rounds_left > 0,
        ensures
            match r {
                Some(reply) => answer_reply(answer) == Some(reply_view(reply))
                    && final(self).rounds_left == old(self).rounds_left,
                None => answer_reply(answer) is None
                    && final(self).rounds_left == old(self).rounds_left - 1,
            },
    {
        match answer {
            RequestResult { status: RequestResultStatus::Success, body: _, process_status: _, id: _ } =>
                Some(HttpReply { status: HttpStatus::Success, body: None }),
            RequestResult { status: RequestResultStatus::Failed, body, process_status: _, id: _ } =>
                Some(HttpReply { status: HttpStatus::InternalServerError, body }),
            _ => {
                self.rounds_left = self.rounds_left - 1;
                None
            },
        }
    }

    /// The reply once the wait has given up: an internal error without a body.
    pub fn timed_out() -> (r: HttpReply)
        ensures
            reply_view(r) == (HttpStatus::InternalServerError, None::<Seq<char>>),
    {
        HttpReply { status: HttpStatus::InternalServerError, body: None }
    }
}

} // verus!
