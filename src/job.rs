//! Jobs: the catalog's filters, the endpoints of a job, and the payload of a
//! dispatch.
use vstd::prelude::*;
use vstd::string::StringExecFns;

use std::collections::BTreeMap;

use crate::error::{Error, JOBS_NOT_FOUND_ERR, NO_RUNNING_JOB_ERR};
use crate::helper::{base64_of, json_of_meta, to_json, Base64};

verus! {

/// Where the job list is read, with each job's metadata, over every namespace.
pub const JOB_LIST_ENDPOINT: &'static str = "v1/jobs?meta=true&namespace=*";

/// The status of a job that runs.
pub const RUNNING_STATUS: &'static str = "running";

/// A job known to the orchestrator.
#[derive(Debug, Default)]
pub struct Job {
    pub id: String,
    pub name: String,
    /// The job runs only when dispatched with metadata.
    pub parameterized: bool,
    pub status: String,
}

/// The identifiers of a dispatch that the orchestrator accepted.
#[derive(Debug)]
pub struct DispatchRes {
    pub eval_id: String,
    pub dispatch_id: String,
}

/// The body of a dispatch: the metadata twice, once as base64 of its JSON
/// form and once as the map itself, as the orchestrator asks for both.
#[derive(Debug)]
pub struct DispatchPayload {
    pub payload: String,
    pub metas: BTreeMap<String, String>,
}

impl DispatchPayload {
    /// The payload whose encoded part is the base64 of `json`.
    pub fn from_json(json: String, metas: BTreeMap<String, String>) -> (r: DispatchPayload)
        ensures
            r.payload@ == base64_of(json@),
            r.metas == metas,
    {
        DispatchPayload { payload: json.to_base64(), metas }
    }
}

/// The dispatch payload of a metadata map: its JSON form in base64, beside
/// the map itself. A map of strings always encodes, so this always succeeds.
pub fn dispatch_payload(metas: BTreeMap<String, String>) -> (r: Result<DispatchPayload, Error>)
    ensures
        r matches Ok(p) && p.payload@ == base64_of(json_of_meta(metas.deep_view())) && p.metas
            == metas,
{
    let json = to_json(&metas)?;
    Ok(DispatchPayload::from_json(json, metas))
}

/// Relies on `Extend::extend` for `BTreeMap`, which inserts every pair of
/// `other`, replacing the value of a key that is already present.
#[verifier::external_body]
fn extend_metas(m: &mut BTreeMap<String, String>, other: BTreeMap<String, String>)
    ensures
        final(m).deep_view() == old(m).deep_view().union_prefer_right(other.deep_view()),
{
    m.extend(other)
}

/// The metadata of a dispatch: the required answers and the optional ones,
/// an optional answer taking the place of a required one with the same key.
pub fn merge_metas(required: BTreeMap<String, String>, optional: BTreeMap<String, String>) -> (r:
    BTreeMap<String, String>)
    ensures
        r.deep_view() == required.deep_view().union_prefer_right(optional.deep_view()),
{
    let mut metas = required;
    extend_metas(&mut metas, optional);
    metas
}

/// The endpoint of a job by its id or name.
pub open spec fn spec_job_endpoint(key: Seq<char>) -> Seq<char> {
    "v1/job/"@ + key
}

/// Where a job is read or deleted.
pub fn job_endpoint(key: &str) -> (r: String)
    ensures
        r@ == spec_job_endpoint(key@),
{
    String::from_str("v1/job/").concat(key)
}

/// Where the allocations of a job or dispatch are listed.
pub fn allocations_endpoint(id: &str) -> (r: String)
    ensures
        r@ == spec_job_endpoint(id@) + "/allocations"@,
{
    job_endpoint(id).concat("/allocations")
}

impl Job {
    /// The job as the operator sees it: its name.
    pub fn to_string(&self) -> (r: String)
        ensures
            r@ == self.name@,
    {
        self.name.clone()
    }

    /// Where the job's definition, with its metadata fields, is read: by name.
    pub fn spec_endpoint(&self) -> (r: String)
        ensures
            r@ == spec_job_endpoint(self.name@),
    {
        job_endpoint(self.name.as_str())
    }

    /// Where the job is dispatched: by id.
    pub fn dispatch_endpoint(&self) -> (r: String)
        ensures
            r@ == spec_job_endpoint(self.id@) + "/dispatch"@,
    {
        job_endpoint(self.id.as_str()).concat("/dispatch")
    }

    /// Where the job is stopped: by id.
    pub fn delete_endpoint(&self) -> (r: String)
        ensures
            r@ == spec_job_endpoint(self.id@),
    {
        job_endpoint(self.id.as_str())
    }
}

/// The job list as read from the orchestrator; an empty one stops the
/// command.
pub fn check_job_list(jobs: Vec<Job>) -> (r: Result<Vec<Job>, Error>)
    ensures
        jobs@.len() > 0 ==> r == Ok::<Vec<Job>, Error>(jobs),
        jobs@.len() == 0 ==> (r matches Err(Error::ScenarioErr(m)) && m@ == JOBS_NOT_FOUND_ERR@),
{
    if jobs.len() == 0 {
        Err(Error::ScenarioErr(String::from_str(JOBS_NOT_FOUND_ERR)))
    } else {
        Ok(jobs)
    }
}

/// The job can be dispatched.
pub open spec fn is_dispatchable(j: Job) -> bool {
    j.parameterized
}

/// The job runs and can be stopped.
pub open spec fn is_stoppable(j: Job) -> bool {
    !j.parameterized && j.status@ == RUNNING_STATUS@
}

/// One of the names is the job's.
pub open spec fn is_named_in(j: Job, names: Seq<String>) -> bool {
    exists|i: int| 0 <= i < names.len() && (#[trigger] names[i])@ == j.name@
}

/// The rule by which a list of jobs is narrowed.
#[derive(Clone, Copy, Debug, PartialEq, Eq, Structural)]
enum Keep {
    Dispatchable,
    Stoppable,
}

fn contains_name(names: &Vec<String>, name: &String) -> (r: bool)
    ensures
        r == exists|i: int| 0 <= i < names@.len() && (#[trigger] names@[i])@ == name@,
{
    let mut i: usize = 0;
    while i < names.len()
        invariant
            i <= names@.len(),
            forall|j: int| 0 <= j < i ==> (#[trigger] names@[j])@ != name@,
        decreases names@.len() - i,
    {
        if names[i] == *name {
            return true;
        }
        i = i + 1;
    }
    false
}

fn kept_by(keep: Keep, j: &Job) -> (r: bool)
    ensures
        keep == Keep::Dispatchable ==> r == is_dispatchable(*j),
        keep == Keep::Stoppable ==> r == is_stoppable(*j),
{
    match keep {
        Keep::Dispatchable => j.parameterized,
        Keep::Stoppable => {
            let running = String::from_str(RUNNING_STATUS);
            !j.parameterized && j.status == running
        },
    }
}

fn keep_jobs(jobs: Vec<Job>, keep: Keep) -> (r: Vec<Job>)
    ensures
        keep == Keep::Dispatchable ==> r@ == jobs@.filter(|j: Job| is_dispatchable(j)),
        keep == Keep::Stoppable ==> r@ == jobs@.filter(|j: Job| is_stoppable(j)),
{
    let ghost all = jobs@;
    let ghost pred = if keep == Keep::Dispatchable {
        |j: Job| is_dispatchable(j)
    } else {
        |j: Job| is_stoppable(j)
    };
    let mut rest = jobs;
    let mut kept: Vec<Job> = Vec::new();
    let n = rest.len();
    let mut i: usize = 0;
    while rest.len() > 0
        invariant
            n == all.len(),
            i <= n,
            rest@ == all.subrange(i as int, all.len() as int),
            kept@ == all.take(i as int).filter(pred),
            keep == Keep::Dispatchable ==> pred == (|j: Job| is_dispatchable(j)),
            keep == Keep::Stoppable ==> pred == (|j: Job| is_stoppable(j)),
        decreases rest@.len(),
    {
        let j = rest.remove(0);
        assert(j == all[i as int]);
        assert(all.take(i + 1).drop_last() == all.take(i as int));
        assert(all.take(i + 1).last() == j);
        let ghost before = all.take(i as int);
        let ghost after = all.take(i + 1);
        assert(after.len() > 0);
        proof {
            reveal(Seq::filter);
        }
        if kept_by(keep, &j) {
            assert(pred(j));
            assert(after.filter(pred) == before.filter(pred).push(j));
            kept.push(j);
        } else {
            assert(!pred(j));
            assert(after.filter(pred) == before.filter(pred));
        }
        i = i + 1;
    }
    assert(all.take(i as int) == all);
    kept
}

/// The jobs that can be dispatched, in their order.
pub fn parameterized_jobs(jobs: Vec<Job>) -> (r: Vec<Job>)
    ensures
        r@ == jobs@.filter(|j: Job| is_dispatchable(j)),
{
    keep_jobs(jobs, Keep::Dispatchable)
}

/// The jobs that run and can be stopped, in their order; none stops the
/// command.
pub fn running_jobs(jobs: Vec<Job>) -> (r: Result<Vec<Job>, Error>)
    ensures
        ({
            let running = jobs@.filter(|j: Job| is_stoppable(j));
            &&& running.len() > 0 ==> (r matches Ok(v) && v@ == running)
            &&& running.len() == 0 ==> (r matches Err(Error::ScenarioErr(m)) && m@
                == NO_RUNNING_JOB_ERR@)
        }),
{
    let running = keep_jobs(jobs, Keep::Stoppable);
    if running.len() == 0 {
        Err(Error::ScenarioErr(String::from_str(NO_RUNNING_JOB_ERR)))
    } else {
        Ok(running)
    }
}

/// The jobs whose names the operator picked, in their order.
pub fn selected_jobs(jobs: Vec<Job>, names: &Vec<String>) -> (r: Vec<Job>)
    ensures
        r@ == jobs@.filter(|j: Job| is_named_in(j, names@)),
{
    let ghost all = jobs@;
    let ghost pred = |j: Job| is_named_in(j, names@);
    let mut rest = jobs;
    let mut kept: Vec<Job> = Vec::new();
    let n = rest.len();
    let mut i: usize = 0;
    while rest.len() > 0
        invariant
            n == all.len(),
            i <= n,
            rest@ == all.subrange(i as int, all.len() as int),
            kept@ == all.take(i as int).filter(pred),
            pred == (|j: Job| is_named_in(j, names@)),
        decreases rest@.len(),
    {
        let j = rest.remove(0);
        assert(j == all[i as int]);
        assert(all.take(i + 1).drop_last() == all.take(i as int));
        assert(all.take(i + 1).last() == j);
        let ghost before = all.take(i as int);
        let ghost after = all.take(i + 1);
        assert(after.len() > 0);
        proof {
            reveal(Seq::filter);
        }
        if contains_name(names, &j.name) {
            assert(pred(j));
            assert(after.filter(pred) == before.filter(pred).push(j));
            kept.push(j);
        } else {
            assert(!pred(j));
            assert(after.filter(pred) == before.filter(pred));
        }
        i = i + 1;
    }
    assert(all.take(i as int) == all);
    kept
}

} // verus!
