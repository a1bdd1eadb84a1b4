//! The transport: where requests go, and what each kind of request does with
//! the reply it gets.
use vstd::prelude::*;
use vstd::string::StringExecFns;

use crate::error::{Error, MISSING_BASE_URL_ERR};
use crate::retry::{Attempt, Retry, Step};

verus! {

/// The status of a successful reply.
pub const SUCCESS_STATUS: u16 = 200;

/// Where the requests go, and the token that authenticates them.
#[derive(Debug)]
pub struct RestHandler {
    base_url: String,
    token: Option<String>,
}

/// The kind of a request: reads are retried, mutating calls are not.
#[derive(Clone, Copy, Debug, PartialEq, Eq, Structural)]
pub enum Method {
    Get,
    Post,
    Delete,
}

/// What one request came back with.
#[derive(Debug)]
pub enum Reply<T> {
    /// The request never got an answer; the text says why.
    Unreachable(String),
    /// An answer arrived, with its status and its body read as the expected
    /// shape, or the reason it could not be.
    Answered { status: u16, body: Result<T, String> },
}

/// The retry state and the step that follow a reply to a request of this kind.
pub open spec fn settled<T>(method: Method, retry: Retry, reply: Reply<T>) -> (Retry, Step<T>) {
    match method {
        Method::Get => match reply {
            Reply::Answered { body: Ok(v), .. } => retry.after(Attempt::Ready(v)),
            _ => retry.after(Attempt::<T>::NotReady),
        },
        Method::Post | Method::Delete => (
            retry,
            match reply {
                Reply::Unreachable(m) => Step::Done(Err(Error::NomadReqErr(m))),
                Reply::Answered { status, body } => if status != SUCCESS_STATUS {
                    Step::Done(Err(Error::Dispatch))
                } else {
                    match body {
                        Ok(v) => Step::Done(Ok(v)),
                        Err(m) => Step::Done(Err(Error::NomadReqErr(m))),
                    }
                },
            },
        ),
    }
}

/// Decides what a reply means. A read retries on a lost connection and on a
/// body that does not parse (the resource may not be ready yet), up to the
/// policy's bound. A mutating call (a dispatch or a delete) is never
/// retried: a non-success status is a `Dispatch` error and any other failure
/// a request error.
pub fn settle<T>(method: Method, retry: &mut Retry, reply: Reply<T>) -> (r: Step<T>)
    requires
        method == Method::Get ==> old(retry).can_attempt(),
    ensures
        (*final(retry), r) == settled(method, *old(retry), reply),
{
    match method {
        Method::Get => match reply {
            Reply::Answered { body: Ok(v), .. } => retry.record(Attempt::Ready(v)),
            _ => retry.record(Attempt::NotReady),
        },
        Method::Post | Method::Delete => match reply {
            Reply::Unreachable(m) => Step::Done(Err(Error::NomadReqErr(m))),
            Reply::Answered { status, body } => {
                if status != SUCCESS_STATUS {
                    Step::Done(Err(Error::Dispatch))
                } else {
                    match body {
                        Ok(v) => Step::Done(Ok(v)),
                        Err(m) => Step::Done(Err(Error::NomadReqErr(m))),
                    }
                }
            },
        },
    }
}

/// A dispatch (or a delete) that the server refuses fails at once with
/// `Dispatch`, and spends no attempt: the call is not made again.
pub proof fn lemma_refused_mutation_is_final<T>(
    method: Method,
    retry: Retry,
    status: u16,
    body: Result<T, String>,
)
    requires
        method != Method::Get,
        status != SUCCESS_STATUS,
    ensures
        settled(method, retry, Reply::Answered { status, body }) == (
            retry,
            Step::<T>::Done(Err(Error::Dispatch)),
        ),
{
}

impl RestHandler {
    pub closed spec fn base_url_view(&self) -> Seq<char> {
        self.base_url@
    }

    pub closed spec fn token_view(&self) -> Option<String> {
        self.token
    }

    /// A handler for the server at `base_url`; without an address there is
    /// nothing to talk to.
    pub fn new(base_url: Option<String>, token: Option<String>) -> (r: Result<RestHandler, Error>)
        ensures
            match base_url {
                Some(url) => r matches Ok(h) && h.base_url_view() == url@ && h.token_view()
                    == token,
                None => r matches Err(Error::MissingEnv(m)) && m@ == MISSING_BASE_URL_ERR@,
            },
    {
        match base_url {
            Some(url) => Ok(RestHandler { base_url: url, token }),
            None => Err(Error::MissingEnv(String::from_str(MISSING_BASE_URL_ERR))),
        }
    }

    /// A handler that points nowhere yet.
    pub fn unset() -> (r: RestHandler)
        ensures
            r.base_url_view() == Seq::<char>::empty(),
            r.token_view() is None,
    {
        RestHandler { base_url: String::new(), token: None }
    }

    /// The full address of an endpoint: the base address, a slash, the endpoint.
    pub fn url(&self, endpoint: &str) -> (r: String)
        ensures
            r@ == self.base_url_view() + "/"@ + endpoint@,
    {
        self.base_url.clone().concat("/").concat(endpoint)
    }

    /// The token sent with every request, when there is one.
    pub fn token(&self) -> (r: &Option<String>)
        ensures
            *r == self.token_view(),
    {
        &self.token
    }
}

} // verus!
