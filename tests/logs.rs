use noumead::allocation::{resolve_step, Allocation, TaskState};
use noumead::error::Error;
use noumead::helper::Base64;
use noumead::retry::{Retry, RetryPolicy, Step};
use noumead::stream::{decimal_text, log_endpoint, LogFetch, StdKind, StreamCursor, StreamLog};
use noumead::tail::Tail;

fn snapshot_of(id: &str, job: &str, tasks: Vec<(&str, Option<&str>)>) -> Allocation {
    Allocation {
        task_states: tasks
            .into_iter()
            .map(|(n, f)| (n.to_string(), TaskState { finished_at: f.map(|s| s.to_string()) }))
            .collect(),
        alloc_id: id.to_string(),
        job_id: job.to_string(),
    }
}

fn chunk(offset: i64, data: &str) -> LogFetch {
    LogFetch::Chunk(StreamLog { offset: Some(offset), data: Some(data.to_string()) })
}

#[test]
fn resolver_succeeds_on_third_listing() {
    let mut retry = Retry::new(RetryPolicy::resolver());
    assert!(matches!(resolve_step(&mut retry, Ok(vec![])), Step::Wait(100)));
    assert!(matches!(resolve_step(&mut retry, Ok(vec![])), Step::Wait(100)));
    let listing = vec![snapshot_of("a1", "d1", vec![("t1", None)])];
    match resolve_step(&mut retry, Ok(listing)) {
        Step::Done(Ok(a)) => {
            assert_eq!(a.alloc_id, "a1");
            assert_eq!(a.job_id, "d1");
        }
        other => panic!("unexpected {:?}", other),
    }
    assert_eq!(retry.attempts, 3);
}

#[test]
fn resolver_gives_up_with_max_retry() {
    let mut retry = Retry::new(RetryPolicy::resolver());
    for _ in 0..4 {
        assert!(matches!(resolve_step(&mut retry, Ok(vec![])), Step::Wait(100)));
    }
    assert!(matches!(resolve_step(&mut retry, Ok(vec![])), Step::Done(Err(Error::MaxRetry))));
}

#[test]
fn resolver_takes_last_allocation_listed() {
    let mut retry = Retry::new(RetryPolicy::resolver());
    let listing = vec![snapshot_of("a1", "d1", vec![]), snapshot_of("a2", "d1", vec![])];
    match resolve_step(&mut retry, Ok(listing)) {
        Step::Done(Ok(a)) => assert_eq!(a.alloc_id, "a2"),
        other => panic!("unexpected {:?}", other),
    }
}

#[test]
fn resolver_passes_listing_failure_on() {
    let mut retry = Retry::new(RetryPolicy::resolver());
    let step = resolve_step(&mut retry, Err(Error::NomadReqErr("down".to_string())));
    assert!(matches!(step, Step::Done(Err(Error::NomadReqErr(_)))));
}

#[test]
fn tail_ends_after_two_polls() {
    let first = snapshot_of("a1", "d1", vec![("t1", None)]);
    let mut tail = Tail::new(&first, "t1".to_string());
    let mut polls = 0;
    let snapshots = vec![
        snapshot_of("a1", "d1", vec![("t1", None)]),
        snapshot_of("a1", "d1", vec![("t1", Some("2024-01-01T00:00:00Z"))]),
    ];
    for snapshot in snapshots {
        polls += 1;
        tail.observe(StdKind::Stdout, LogFetch::NoData).unwrap();
        tail.observe(StdKind::Stderr, LogFetch::NoData).unwrap();
        match tail.after_snapshot(Ok(snapshot)) {
            Step::Wait(ms) => assert_eq!(ms, 100),
            Step::Done(r) => {
                assert!(r.is_ok());
                break;
            }
        }
    }
    assert_eq!(polls, 2);
}

#[test]
fn tail_fails_when_task_vanishes() {
    let first = snapshot_of("a1", "d1", vec![("t1", None)]);
    let tail = Tail::new(&first, "t1".to_string());
    let step = tail.after_snapshot(Ok(snapshot_of("a1", "d1", vec![("t2", None)])));
    assert!(matches!(step, Step::Done(Err(Error::MissingTask))));
    let failed = tail.after_snapshot(Err(Error::MaxRetry));
    assert!(matches!(failed, Step::Done(Err(Error::MaxRetry))));
}

#[test]
fn same_offset_is_rendered_once() {
    let mut cursor = StreamCursor::new();
    let first = cursor.observe(chunk(5, "aGVsbG8=")).unwrap();
    assert_eq!(first.as_deref(), Some("hello"));
    let second = cursor.observe(chunk(5, "aGVsbG8=")).unwrap();
    assert_eq!(second, None);
    assert_eq!(cursor.next_offset, 5);
    assert_eq!(cursor.last_rendered_offset, Some(5));
    let third = cursor.observe(chunk(9, "aGk=")).unwrap();
    assert_eq!(third.as_deref(), Some("hi"));
}

#[test]
fn no_data_reads_as_offset_zero() {
    let mut cursor = StreamCursor::new();
    cursor.observe(chunk(12, "aGVsbG8=")).unwrap();
    let r = cursor.observe(LogFetch::NoData).unwrap();
    assert_eq!(r, None);
    assert_eq!(cursor.next_offset, 0);
    assert_eq!(cursor.last_rendered_offset, Some(12));
}

#[test]
fn chunk_without_offset_or_data() {
    let mut cursor = StreamCursor::new();
    let r = cursor.observe(LogFetch::Chunk(StreamLog { offset: None, data: None })).unwrap();
    assert_eq!(r, None);
    assert_eq!(cursor.next_offset, 0);
    assert_eq!(cursor.last_rendered_offset, None);
    let r = cursor.observe(LogFetch::Chunk(StreamLog { offset: Some(3), data: None })).unwrap();
    assert_eq!(r, None);
    assert_eq!(cursor.next_offset, 3);
}

#[test]
fn undecodable_chunk_fails_and_keeps_cursor() {
    let mut cursor = StreamCursor::new();
    cursor.observe(chunk(4, "aGk=")).unwrap();
    let r = cursor.observe(chunk(8, "%%%not base64"));
    assert!(matches!(r, Err(Error::ScenarioErr(_))));
    assert_eq!(cursor.next_offset, 4);
    let bad_utf8 = cursor.observe(chunk(8, "/w=="));
    assert!(matches!(bad_utf8, Err(Error::ScenarioErr(_))));
}

#[test]
fn tail_cursors_are_separate() {
    let first = snapshot_of("a1", "d1", vec![("t1", None)]);
    let mut tail = Tail::new(&first, "t1".to_string());
    let out = tail.observe(StdKind::Stdout, chunk(5, "aGk=")).unwrap();
    assert_eq!(out.as_deref(), Some("hi"));
    let err = tail.observe(StdKind::Stderr, chunk(5, "aGk=")).unwrap();
    assert_eq!(err.as_deref(), Some("hi"));
    assert_eq!(tail.stdout.next_offset, 5);
    assert_eq!(tail.stderr.next_offset, 5);
    assert_eq!(
        tail.log_endpoint(StdKind::Stderr),
        "v1/client/fs/logs/a1?task=t1&type=stderr&offset=5"
    );
}

#[test]
fn log_endpoint_text() {
    assert_eq!(
        log_endpoint("abc", "web", StdKind::Stdout, 0),
        "v1/client/fs/logs/abc?task=web&type=stdout&offset=0"
    );
    assert_eq!(
        log_endpoint("abc", "web", StdKind::Stderr, 1234),
        "v1/client/fs/logs/abc?task=web&type=stderr&offset=1234"
    );
}

#[test]
fn decimal_text_matches_std() {
    for n in [0i64, 7, 10, 99, 100, 123456789, -1, -42, i64::MAX, i64::MIN] {
        assert_eq!(decimal_text(n), n.to_string());
    }
}

#[test]
fn task_lookup_and_names() {
    let a = snapshot_of("a1", "d1", vec![("web", None), ("db", Some("2024-01-01T00:00:00Z"))]);
    assert_eq!(a.get_tasks_name(), vec!["web".to_string(), "db".to_string()]);
    assert!(a.task_state("web").unwrap().finished_at.is_none());
    assert_eq!(a.task_state("db").unwrap().finished_at.as_deref(), Some("2024-01-01T00:00:00Z"));
    assert!(a.task_state("cache").is_none());
}

#[test]
fn base64_round_trip_of_text() {
    let encoded = "hello".to_string().to_base64();
    assert_eq!(encoded, "aGVsbG8=");
    assert_eq!(String::from_base64(encoded).unwrap(), "hello");
    assert_eq!("".to_string().to_base64(), "");
}

#[test]
fn failed_log_request_means_no_data() {
    let fetch = LogFetch::from_outcome(Err(Error::MaxRetry));
    assert!(matches!(fetch, LogFetch::NoData));
    let fetch = LogFetch::from_outcome(Ok(StreamLog { offset: Some(3), data: None }));
    assert!(matches!(fetch, LogFetch::Chunk(StreamLog { offset: Some(3), data: None })));
}
