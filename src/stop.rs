//! Stopping jobs in a batch: one delete per job, all issued, each outcome
//! reported on its own.
use vstd::prelude::*;

use crate::error::Error;
use crate::job::{spec_job_endpoint, Job};

verus! {

/// How a batch of deletes went, job by job.
#[derive(Debug)]
pub struct DeleteReport {
    /// The names of the jobs deleted, in the batch's order.
    pub deleted: Vec<String>,
    /// The names of the jobs whose delete failed, each with its error.
    pub failed: Vec<(String, Error)>,
}

/// The names of the jobs whose delete succeeded, in order.
pub open spec fn deleted_names(jobs: Seq<Job>, results: Seq<Result<(), Error>>) -> Seq<Seq<char>>
    decreases results.len(),
{
    if results.len() == 0 {
        Seq::empty()
    } else {
        let before = deleted_names(jobs, results.drop_last());
        if results.last() is Ok {
            before.push(jobs[results.len() - 1].name@)
        } else {
            before
        }
    }
}

/// The names of the jobs whose delete failed, with the errors, in order.
pub open spec fn failed_deletes(jobs: Seq<Job>, results: Seq<Result<(), Error>>) -> Seq<
    (Seq<char>, Error),
>
    decreases results.len(),
{
    if results.len() == 0 {
        Seq::empty()
    } else {
        let before = failed_deletes(jobs, results.drop_last());
        match results.last() {
            Err(e) => before.push((jobs[results.len() - 1].name@, e)),
            Ok(_) => before,
        }
    }
}

/// The endpoints to delete, one for each job, in order.
pub fn delete_endpoints(jobs: &Vec<Job>) -> (r: Vec<String>)
    ensures
        r@.len() == jobs@.len(),
        forall|i: int| 0 <= i < r@.len() ==> #[trigger] r@[i]@ == spec_job_endpoint(jobs@[i].id@),
{
    let mut endpoints: Vec<String> = Vec::new();
    let mut i: usize = 0;
    while i < jobs.len()
        invariant
            i <= jobs@.len(),
            endpoints@.len() == i,
            forall|k: int| 0 <= k < i ==> #[trigger] endpoints@[k]@ == spec_job_endpoint(
                jobs@[k].id@,
            ),
        decreases jobs@.len() - i,
    {
        endpoints.push(jobs[i].delete_endpoint());
        i = i + 1;
    }
    endpoints
}

/// Sorts the outcomes of a batch of deletes, the `i`th outcome being that of
/// the `i`th job, into the jobs deleted and the jobs not deleted with why.
pub fn report_deletes(jobs: &Vec<Job>, results: Vec<Result<(), Error>>) -> (r: DeleteReport)
    requires
        jobs@.len() == results@.len(),
    ensures
        r.deleted@.len() == deleted_names(jobs@, results@).len(),
        forall|k: int| 0 <= k < r.deleted@.len() ==> #[trigger] r.deleted@[k]@ == deleted_names(
            jobs@,
            results@,
        )[k],
        r.failed@.len() == failed_deletes(jobs@, results@).len(),
        forall|k: int|
            0 <= k < r.failed@.len() ==> #[trigger] r.failed@[k].0@ == failed_deletes(
                jobs@,
                results@,
            )[k].0 && r.failed@[k].1 == failed_deletes(jobs@, results@)[k].1,
{
    let ghost all = results@;
    let n = results.len();
    let mut rest = results;
    let mut deleted: Vec<String> = Vec::new();
    let mut failed: Vec<(String, Error)> = Vec::new();
    let mut i: usize = 0;
    while rest.len() > 0
        invariant
            n == all.len(),
            n == jobs@.len(),
            i <= n,
            rest@ == all.subrange(i as int, n as int),
            deleted@.len() == deleted_names(jobs@, all.take(i as int)).len(),
            forall|k: int| 0 <= k < deleted@.len() ==> #[trigger] deleted@[k]@ == deleted_names(
                jobs@,
                all.take(i as int),
            )[k],
            failed@.len() == failed_deletes(jobs@, all.take(i as int)).len(),
            forall|k: int|
                0 <= k < failed@.len() ==> #[trigger] failed@[k].0@ == failed_deletes(
                    jobs@,
                    all.take(i as int),
                )[k].0 && failed@[k].1 == failed_deletes(jobs@, all.take(i as int))[k].1,
        decreases rest@.len(),
    {
        let outcome = rest.remove(0);
        let ghost before = all.take(i as int);
        let ghost after = all.take(i + 1);
        assert(after.drop_last() == before);
        assert(after.last() == outcome);
        match outcome {
            Ok(_) => deleted.push(jobs[i].name.clone()),
            Err(e) => failed.push((jobs[i].name.clone(), e)),
        }
        i = i + 1;
    }
    assert(all.take(i as int) == all);
    DeleteReport { deleted, failed }
}

/// The delete failed.
pub open spec fn is_failure(r: Result<(), Error>) -> bool {
    r is Err
}

/// Every delete of a batch is reported, each once: of `N` outcomes with `M`
/// failures, the report names `M` jobs not deleted and `N - M` deleted.
pub proof fn lemma_every_delete_reported(jobs: Seq<Job>, results: Seq<Result<(), Error>>)
    ensures
        failed_deletes(jobs, results).len() == results.filter(|r| is_failure(r)).len(),
        deleted_names(jobs, results).len() + failed_deletes(jobs, results).len() == results.len(),
    decreases results.len(),
{
    reveal(Seq::filter);
    if results.len() > 0 {
        lemma_every_delete_reported(jobs, results.drop_last());
    }
}

} // verus!
