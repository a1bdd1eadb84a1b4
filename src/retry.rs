//! One bounded retry primitive with a fixed delay, shared by the transport
//! and by the allocation resolver with different policies.
use vstd::prelude::*;

use crate::error::Error;

verus! {

/// Attempts that one transport call may make.
pub const TRANSPORT_MAX_ATTEMPTS: u64 = 8;

/// Pause, in milliseconds, between two transport attempts.
pub const TRANSPORT_DELAY_MS: u64 = 1000;

/// Listings that the resolver makes before it gives up on an allocation.
pub const RESOLVER_MAX_ATTEMPTS: u64 = 5;

/// Pause, in milliseconds, between two listings of the resolver, and between
/// two polls of a log tail.
pub const POLL_DELAY_MS: u64 = 100;

/// How often to try and how long to wait in between.
#[derive(Clone, Copy, Debug, PartialEq, Eq, Structural)]
pub struct RetryPolicy {
    pub max_attempts: u64,
    pub delay_ms: u64,
}

impl RetryPolicy {
    /// The policy of a single HTTP request.
    pub fn transport() -> (r: RetryPolicy)
        ensures
            r.max_attempts == TRANSPORT_MAX_ATTEMPTS,
            r.delay_ms == TRANSPORT_DELAY_MS,
    {
        RetryPolicy { max_attempts: TRANSPORT_MAX_ATTEMPTS, delay_ms: TRANSPORT_DELAY_MS }
    }

    /// The policy of the allocation resolver.
    pub fn resolver() -> (r: RetryPolicy)
        ensures
            r.max_attempts == RESOLVER_MAX_ATTEMPTS,
            r.delay_ms == POLL_DELAY_MS,
    {
        RetryPolicy { max_attempts: RESOLVER_MAX_ATTEMPTS, delay_ms: POLL_DELAY_MS }
    }
}

/// What one attempt came to.
#[derive(Debug)]
pub enum Attempt<T> {
    /// The awaited value arrived.
    Ready(T),
    /// Nothing usable yet; another attempt may succeed.
    NotReady,
    /// A failure that no further attempt can mend.
    Failed(Error),
}

/// What to do after an attempt.
#[derive(Debug)]
pub enum Step<T> {
    /// Stop with this outcome.
    Done(Result<T, Error>),
    /// Sleep for this many milliseconds, then attempt again.
    Wait(u64),
}

/// The attempts made so far under one policy, for one call.
#[derive(Clone, Copy, Debug)]
pub struct Retry {
    pub policy: RetryPolicy,
    pub attempts: u64,
}

impl Retry {
    /// Another attempt may still be made.
    pub open spec fn can_attempt(&self) -> bool {
        self.attempts < self.policy.max_attempts
    }

    /// The state and the step that follow an attempt with this outcome.
    pub open spec fn after<T>(self, outcome: Attempt<T>) -> (Retry, Step<T>) {
        let next = Retry { policy: self.policy, attempts: (self.attempts + 1) as u64 };
        match outcome {
            Attempt::Ready(v) => (next, Step::Done(Ok(v))),
            Attempt::Failed(e) => (next, Step::Done(Err(e))),
            Attempt::NotReady => if next.attempts < self.policy.max_attempts {
                (next, Step::Wait(self.policy.delay_ms))
            } else {
                (next, Step::Done(Err(Error::MaxRetry)))
            },
        }
    }

    /// No attempt made yet.
    pub fn new(policy: RetryPolicy) -> (r: Retry)
        ensures
            r.policy == policy,
            r.attempts == 0,
    {
        Retry { policy, attempts: 0 }
    }

    /// Counts an attempt and decides what follows it: a ready value or a
    /// terminal failure ends the call; a value that is not ready yet is
    /// waited for, unless that was the last attempt, which ends the call with
    /// `MaxRetry`.
    pub fn record<T>(&mut self, outcome: Attempt<T>) -> (r: Step<T>)
        requires
            old(self).can_attempt(),
        ensures
            (*final(self), r) == old(self).after(outcome),
    {
        self.attempts = self.attempts + 1;
        match outcome {
            Attempt::Ready(v) => Step::Done(Ok(v)),
            Attempt::Failed(e) => Step::Done(Err(e)),
            Attempt::NotReady => {
                if self.attempts < self.policy.max_attempts {
                    Step::Wait(self.policy.delay_ms)
                } else {
                    Step::Done(Err(Error::MaxRetry))
                }
            },
        }
    }
}

} // verus!
