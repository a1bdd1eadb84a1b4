//! A log tail session: two stream cursors, and the test after each poll of
//! whether the tailed task has finished.
use vstd::prelude::*;

use crate::allocation::Allocation;
use crate::error::Error;
use crate::retry::{Step, POLL_DELAY_MS};
use crate::stream::{log_endpoint, shown, spec_log_endpoint, LogFetch, StdKind, StreamCursor};

verus! {

/// One session that follows a task's logs until the task finishes.
#[derive(Debug)]
pub struct Tail {
    pub alloc_id: String,
    pub job_id: String,
    pub task_name: String,
    pub stdout: StreamCursor,
    pub stderr: StreamCursor,
}

/// What a fresh snapshot of the allocation, or the failure to get one, means
/// for the tail of `task_name`: stop with the failure, stop with
/// `MissingTask` when the task is gone, stop successfully once the task has
/// finished, and otherwise wait and poll again.
pub open spec fn snapshot_step(task_name: Seq<char>, snapshot: Result<Allocation, Error>) -> Step<
    (),
> {
    match snapshot {
        Err(e) => Step::Done(Err(e)),
        Ok(alloc) => match alloc.task_state_of(task_name) {
            None => Step::Done(Err(Error::MissingTask)),
            Some(t) => if t.finished_at is Some {
                Step::Done(Ok(()))
            } else {
                Step::Wait(POLL_DELAY_MS)
            },
        },
    }
}

/// The outcome of a tail against successive snapshots, with the number of
/// polls made; `None` when the snapshots run out before the tail stops.
pub open spec fn tail_run(task_name: Seq<char>, snapshots: Seq<Result<Allocation, Error>>) -> Option<
    (Result<(), Error>, nat),
>
    decreases snapshots.len(),
{
    if snapshots.len() == 0 {
        None
    } else {
        match snapshot_step(task_name, snapshots[0]) {
            Step::Done(res) => Some((res, 1nat)),
            Step::Wait(_) => match tail_run(task_name, snapshots.drop_first()) {
                Some((res, n)) => Some((res, n + 1)),
                None => None,
            },
        }
    }
}

/// The snapshot lists the task, and in the given completion state.
pub open spec fn shows_task(
    snapshot: Result<Allocation, Error>,
    task_name: Seq<char>,
    finished: bool,
) -> bool {
    snapshot matches Ok(alloc) && alloc.task_state_of(task_name) matches Some(t) && (
    t.finished_at is Some) == finished
}

/// A tail ends successfully on exactly the poll whose snapshot first shows
/// the task finished: when the task runs through the first `k` snapshots
/// and is finished in the next, the tail makes `k + 1` polls.
pub proof fn lemma_tail_ends_when_task_finishes(
    task_name: Seq<char>,
    snapshots: Seq<Result<Allocation, Error>>,
    k: int,
)
    requires
        0 <= k < snapshots.len(),
        forall|i: int| 0 <= i < k ==> shows_task(#[trigger] snapshots[i], task_name, false),
        shows_task(snapshots[k], task_name, true),
    ensures
        tail_run(task_name, snapshots) == Some((Ok::<(), Error>(()), (k + 1) as nat)),
    decreases k,
{
    if k > 0 {
        assert(shows_task(snapshots[0], task_name, false));
        let rest = snapshots.drop_first();
        assert forall|i: int| 0 <= i < k - 1 implies shows_task(#[trigger] rest[i], task_name, false) by {
            assert(shows_task(snapshots[i + 1], task_name, false));
        }
        lemma_tail_ends_when_task_finishes(task_name, rest, k - 1);
    }
}

impl Tail {
    /// A tail of one task of an allocation, both streams read from their start.
    pub fn new(alloc: &Allocation, task_name: String) -> (r: Tail)
        ensures
            r.alloc_id@ == alloc.alloc_id@,
            r.job_id@ == alloc.job_id@,
            r.task_name == task_name,
            r.stdout == (StreamCursor { next_offset: 0, last_rendered_offset: None }),
            r.stderr == (StreamCursor { next_offset: 0, last_rendered_offset: None }),
    {
        Tail {
            alloc_id: alloc.alloc_id.clone(),
            job_id: alloc.job_id.clone(),
            task_name,
            stdout: StreamCursor::new(),
            stderr: StreamCursor::new(),
        }
    }

    pub open spec fn cursor(&self, kind: StdKind) -> StreamCursor {
        match kind {
            StdKind::Stdout => self.stdout,
            StdKind::Stderr => self.stderr,
        }
    }

    /// Where to read a stream next: from the offset last reported for it.
    pub fn log_endpoint(&self, kind: StdKind) -> (r: String)
        ensures
            r@ == spec_log_endpoint(
                self.alloc_id@,
                self.task_name@,
                kind,
                self.cursor(kind).next_offset,
            ),
    {
        let offset = match kind {
            StdKind::Stdout => self.stdout.next_offset,
            StdKind::Stderr => self.stderr.next_offset,
        };
        log_endpoint(self.alloc_id.as_str(), self.task_name.as_str(), kind, offset)
    }

    /// Hands a stream's log request outcome to that stream's cursor; the
    /// other cursor is left alone.
    pub fn observe(&mut self, kind: StdKind, fetch: LogFetch) -> (r: Result<Option<String>, Error>)
        ensures
            final(self).alloc_id == old(self).alloc_id,
            final(self).job_id == old(self).job_id,
            final(self).task_name == old(self).task_name,
            final(self).cursor(kind) == old(self).cursor(kind).observed(fetch).0,
            shown(r, old(self).cursor(kind).observed(fetch).1),
            kind == StdKind::Stdout ==> final(self).stderr == old(self).stderr,
            kind == StdKind::Stderr ==> final(self).stdout == old(self).stdout,
    {
        match kind {
            StdKind::Stdout => self.stdout.observe(fetch),
            StdKind::Stderr => self.stderr.observe(fetch),
        }
    }

    /// Decides, from a fresh snapshot of the allocation, whether the tail
    /// goes on.
    pub fn after_snapshot(&self, snapshot: Result<Allocation, Error>) -> (r: Step<()>)
        ensures
            r == snapshot_step(self.task_name@, snapshot),
    {
        match snapshot {
            Err(e) => Step::Done(Err(e)),
            Ok(alloc) => match alloc.task_state(self.task_name.as_str()) {
                None => Step::Done(Err(Error::MissingTask)),
                Some(t) => {
                    if t.finished_at.is_some() {
                        Step::Done(Ok(()))
                    } else {
                        Step::Wait(POLL_DELAY_MS)
                    }
                },
            },
        }
    }
}

} // verus!
