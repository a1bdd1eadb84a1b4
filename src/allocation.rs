//! Allocations, the runtime records of a dispatch, and the resolver that waits
//! for a dispatch's allocation to appear.
use vstd::prelude::*;
use vstd::string::StringExecFns;

use crate::error::Error;
use crate::retry::{Attempt, Retry, RetryPolicy, Step};

verus! {

/// The runtime status of one task.
#[derive(Debug)]
pub struct TaskState {
    /// When the task finished; `None` while it still runs.
    pub finished_at: Option<String>,
}

/// One snapshot of the runtime record of a dispatch.
#[derive(Debug)]
pub struct Allocation {
    /// Each task, by name, with its state.
    pub task_states: Vec<(String, TaskState)>,
    pub alloc_id: String,
    pub job_id: String,
}

impl Allocation {
    /// No two tasks share a name: the tasks form a map from name to state.
    pub open spec fn wf(&self) -> bool {
        forall|i: int, j: int|
            0 <= i < self.task_states@.len() && 0 <= j < self.task_states@.len() && i != j
                ==> #[trigger] self.task_states@[i].0@ != #[trigger] self.task_states@[j].0@
    }

    /// Index `i` holds the first task named `name`.
    pub open spec fn is_first_named(&self, i: int, name: Seq<char>) -> bool {
        &&& 0 <= i < self.task_states@.len()
        &&& self.task_states@[i].0@ == name
        &&& forall|j: int| 0 <= j < i ==> self.task_states@[j].0@ != name
    }

    /// The state of the task named `name`, if the allocation has one.
    pub open spec fn task_state_of(&self, name: Seq<char>) -> Option<TaskState> {
        if exists|i: int| self.is_first_named(i, name) {
            Some(self.task_states@[choose|i: int| self.is_first_named(i, name)].1)
        } else {
            None
        }
    }

    /// The name of every task, in the allocation's order; in a well-formed
    /// allocation each name comes once.
    pub fn get_tasks_name(&self) -> (r: Vec<String>)
        ensures
            r@.len() == self.task_states@.len(),
            forall|i: int| 0 <= i < r@.len() ==> #[trigger] r@[i]@ == self.task_states@[i].0@,
            self.wf() ==> forall|i: int, j: int|
                0 <= i < r@.len() && 0 <= j < r@.len() && i != j ==> #[trigger] r@[i]@
                    != #[trigger] r@[j]@,
    {
        let mut names: Vec<String> = Vec::new();
        let mut i: usize = 0;
        while i < self.task_states.len()
            invariant
                i <= self.task_states@.len(),
                names@.len() == i,
                forall|j: int| 0 <= j < i ==> #[trigger] names@[j]@ == self.task_states@[j].0@,
            decreases self.task_states@.len() - i,
        {
            names.push(self.task_states[i].0.clone());
            i = i + 1;
        }
        names
    }

    /// Looks a task up by name.
    pub fn task_state(&self, name: &str) -> (r: Option<&TaskState>)
        ensures
            match r {
                Some(t) => self.task_state_of(name@) == Some(*t),
                None => self.task_state_of(name@) is None,
            },
    {
        let key = String::from_str(name);
        let mut i: usize = 0;
        while i < self.task_states.len()
            invariant
                key@ == name@,
                i <= self.task_states@.len(),
                forall|j: int| 0 <= j < i ==> self.task_states@[j].0@ != name@,
            decreases self.task_states@.len() - i,
        {
            if self.task_states[i].0 == key {
                assert(self.is_first_named(i as int, name@));
                let ghost k = choose|k: int| self.is_first_named(k, name@);
                assert(k == i) by {
                    if k < i {
                    } else if k > i {
                        assert(self.task_states@[i as int].0@ == name@);
                    }
                }
                return Some(&self.task_states[i].1);
            }
            i = i + 1;
        }
        assert forall|k: int| !self.is_first_named(k, name@) by {
            if 0 <= k < self.task_states@.len() {
                assert(self.task_states@[k].0@ != name@);
            }
        }
        None
    }
}

/// What one listing of a dispatch's allocations means to the resolver: the
/// last allocation listed, nothing yet when the list is empty, or a failure of
/// the listing itself.
pub open spec fn listing_attempt(listing: Result<Vec<Allocation>, Error>) -> Attempt<Allocation> {
    match listing {
        Ok(v) => if v@.len() > 0 {
            Attempt::Ready(v@.last())
        } else {
            Attempt::NotReady
        },
        Err(e) => Attempt::Failed(e),
    }
}

/// Takes one listing of a dispatch's allocations and decides what follows:
/// the last allocation listed, a wait before listing again when none is
/// listed yet, `MaxRetry` once the policy's attempts are spent, or the
/// listing's own error.
pub fn resolve_step(retry: &mut Retry, listing: Result<Vec<Allocation>, Error>) -> (r: Step<
    Allocation,
>)
    requires
        old(retry).can_attempt(),
    ensures
        (*final(retry), r) == old(retry).after(listing_attempt(listing)),
{
    let attempt = match listing {
        Ok(v) => {
            let mut v = v;
            match v.pop() {
                Some(a) => Attempt::Ready(a),
                None => Attempt::NotReady,
            }
        },
        Err(e) => Attempt::Failed(e),
    };
    retry.record(attempt)
}

/// The outcome of resolving against successive listings, with the number of
/// listings used; `None` when the listings run out before the resolver stops.
pub open spec fn resolve_run(retry: Retry, listings: Seq<Result<Vec<Allocation>, Error>>) -> Option<
    (Result<Allocation, Error>, nat),
>
    decreases listings.len(),
{
    if listings.len() == 0 {
        None
    } else {
        let (next, step) = retry.after(listing_attempt(listings[0]));
        match step {
            Step::Done(res) => Some((res, 1nat)),
            Step::Wait(_) => match resolve_run(next, listings.drop_first()) {
                Some((res, n)) => Some((res, n + 1)),
                None => None,
            },
        }
    }
}

/// The listing came back, and held no allocation.
pub open spec fn is_empty_listing(listing: Result<Vec<Allocation>, Error>) -> bool {
    listing matches Ok(v) && v@.len() == 0
}

proof fn lemma_empty_listings_from(retry: Retry, listings: Seq<Result<Vec<Allocation>, Error>>)
    requires
        retry.can_attempt(),
        listings.len() == retry.policy.max_attempts - retry.attempts,
        forall|i: int| 0 <= i < listings.len() ==> is_empty_listing(#[trigger] listings[i]),
    ensures
        resolve_run(retry, listings) == Some(
            (Err::<Allocation, Error>(Error::MaxRetry), listings.len()),
        ),
    decreases listings.len(),
{
    assert(is_empty_listing(listings[0]));
    let next = retry.after(listing_attempt(listings[0])).0;
    if next.attempts < retry.policy.max_attempts {
        let rest = listings.drop_first();
        assert forall|i: int| 0 <= i < rest.len() implies is_empty_listing(#[trigger] rest[i]) by {
            assert(is_empty_listing(listings[i + 1]));
        }
        lemma_empty_listings_from(next, rest);
    }
}

/// When every listing up to the policy's bound comes back empty, resolution
/// fails with `MaxRetry` after exactly that many listings.
pub proof fn lemma_resolver_gives_up(policy: RetryPolicy, listings: Seq<Result<Vec<Allocation>, Error>>)
    requires
        policy.max_attempts >= 1,
        listings.len() == policy.max_attempts,
        forall|i: int| 0 <= i < listings.len() ==> is_empty_listing(#[trigger] listings[i]),
    ensures
        resolve_run(Retry { policy, attempts: 0 }, listings) == Some(
            (Err::<Allocation, Error>(Error::MaxRetry), policy.max_attempts as nat),
        ),
{
    lemma_empty_listings_from(Retry { policy, attempts: 0 }, listings);
}

proof fn lemma_first_allocation_from(
    retry: Retry,
    listings: Seq<Result<Vec<Allocation>, Error>>,
    k: int,
)
    requires
        0 <= k < listings.len(),
        retry.attempts + k < retry.policy.max_attempts,
        forall|i: int| 0 <= i < k ==> is_empty_listing(#[trigger] listings[i]),
        listings[k] matches Ok(v) && v@.len() > 0,
    ensures
        resolve_run(retry, listings) == Some(
            (Ok::<Allocation, Error>(listings[k]->Ok_0@.last()), (k + 1) as nat),
        ),
    decreases k,
{
    if k > 0 {
        assert(is_empty_listing(listings[0]));
        let next = retry.after(listing_attempt(listings[0])).0;
        let rest = listings.drop_first();
        assert forall|i: int| 0 <= i < k - 1 implies is_empty_listing(#[trigger] rest[i]) by {
            assert(is_empty_listing(listings[i + 1]));
        }
        lemma_first_allocation_from(next, rest, k - 1);
    }
}

/// Resolution succeeds on the first listing that holds an allocation, if it
/// comes within the policy's bound, and yields the last allocation it lists.
pub proof fn lemma_resolver_takes_first_listing(
    policy: RetryPolicy,
    listings: Seq<Result<Vec<Allocation>, Error>>,
    k: int,
)
    requires
        0 <= k < listings.len(),
        k < policy.max_attempts,
        forall|i: int| 0 <= i < k ==> is_empty_listing(#[trigger] listings[i]),
        listings[k] matches Ok(v) && v@.len() > 0,
    ensures
        resolve_run(Retry { policy, attempts: 0 }, listings) == Some(
            (Ok::<Allocation, Error>(listings[k]->Ok_0@.last()), (k + 1) as nat),
        ),
{
    lemma_first_allocation_from(Retry { policy, attempts: 0 }, listings, k);
}

} // verus!
