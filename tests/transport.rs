use noumead::error::Error;
use noumead::rest::{settle, Method, Reply, RestHandler};
use noumead::retry::{Attempt, Retry, RetryPolicy, Step};

#[test]
fn transport_policy_gives_up_after_eight_attempts() {
    let mut retry = Retry::new(RetryPolicy::transport());
    for _ in 0..7 {
        let step: Step<u32> = retry.record(Attempt::NotReady);
        assert!(matches!(step, Step::Wait(1000)));
    }
    let step: Step<u32> = retry.record(Attempt::NotReady);
    assert!(matches!(step, Step::Done(Err(Error::MaxRetry))));
    assert_eq!(retry.attempts, 8);
}

#[test]
fn ready_value_ends_the_retry() {
    let mut retry = Retry::new(RetryPolicy::resolver());
    let first: Step<u32> = retry.record(Attempt::NotReady);
    assert!(matches!(first, Step::Wait(100)));
    let second = retry.record(Attempt::Ready(7u32));
    assert!(matches!(second, Step::Done(Ok(7))));
    assert_eq!(retry.attempts, 2);
}

#[test]
fn terminal_failure_is_not_retried() {
    let mut retry = Retry::new(RetryPolicy::transport());
    let step: Step<u32> = retry.record(Attempt::Failed(Error::MissingTask));
    assert!(matches!(step, Step::Done(Err(Error::MissingTask))));
}

#[test]
fn get_retries_on_unreadable_body_and_lost_connection() {
    let mut retry = Retry::new(RetryPolicy::transport());
    let lost: Reply<u32> = Reply::Unreachable("connection refused".to_string());
    assert!(matches!(settle(Method::Get, &mut retry, lost), Step::Wait(1000)));
    let unreadable: Reply<u32> = Reply::Answered { status: 200, body: Err("EOF".to_string()) };
    assert!(matches!(settle(Method::Get, &mut retry, unreadable), Step::Wait(1000)));
    let ok: Reply<u32> = Reply::Answered { status: 200, body: Ok(3) };
    assert!(matches!(settle(Method::Get, &mut retry, ok), Step::Done(Ok(3))));
    assert_eq!(retry.attempts, 3);
}

#[test]
fn refused_dispatch_fails_without_another_attempt() {
    let mut retry = Retry::new(RetryPolicy::transport());
    let refused: Reply<u32> = Reply::Answered { status: 500, body: Ok(1) };
    let step = settle(Method::Post, &mut retry, refused);
    assert!(matches!(step, Step::Done(Err(Error::Dispatch))));
    assert_eq!(retry.attempts, 0);
}

#[test]
fn dispatch_with_unreadable_answer_is_a_request_error() {
    let mut retry = Retry::new(RetryPolicy::transport());
    let reply: Reply<u32> = Reply::Answered { status: 200, body: Err("bad json".to_string()) };
    match settle(Method::Post, &mut retry, reply) {
        Step::Done(Err(Error::NomadReqErr(m))) => assert_eq!(m, "bad json"),
        other => panic!("unexpected step {:?}", other),
    }
    let lost: Reply<u32> = Reply::Unreachable("timeout".to_string());
    assert!(matches!(settle(Method::Post, &mut retry, lost), Step::Done(Err(Error::NomadReqErr(_)))));
    assert_eq!(retry.attempts, 0);
}

#[test]
fn delete_succeeds_on_success_status() {
    let mut retry = Retry::new(RetryPolicy::transport());
    let answered: Reply<()> = Reply::Answered { status: 200, body: Ok(()) };
    assert!(matches!(settle(Method::Delete, &mut retry, answered), Step::Done(Ok(()))));
    assert_eq!(retry.attempts, 0);
}

#[test]
fn refused_delete_fails_without_another_attempt() {
    let mut retry = Retry::new(RetryPolicy::transport());
    let refused: Reply<()> = Reply::Answered { status: 500, body: Ok(()) };
    assert!(matches!(settle(Method::Delete, &mut retry, refused), Step::Done(Err(Error::Dispatch))));
    let missing: Reply<()> = Reply::Answered { status: 404, body: Ok(()) };
    assert!(matches!(settle(Method::Delete, &mut retry, missing), Step::Done(Err(Error::Dispatch))));
    let lost: Reply<()> = Reply::Unreachable("reset".to_string());
    assert!(matches!(settle(Method::Delete, &mut retry, lost), Step::Done(Err(Error::NomadReqErr(_)))));
    assert_eq!(retry.attempts, 0);
}

#[test]
fn handler_needs_an_address() {
    match RestHandler::new(None, Some("tok".to_string())) {
        Err(Error::MissingEnv(m)) => assert_eq!(m, "Failed to get the url of the nomad server"),
        other => panic!("unexpected {:?}", other),
    }
}

#[test]
fn handler_joins_base_and_endpoint() {
    let handler = RestHandler::new(Some("http://localhost:4646".to_string()), None).unwrap();
    assert_eq!(handler.url("v1/jobs"), "http://localhost:4646/v1/jobs");
    assert!(handler.token().is_none());
    let with_token =
        RestHandler::new(Some("http://h".to_string()), Some("tok".to_string())).unwrap();
    assert_eq!(with_token.token().as_deref(), Some("tok"));
}

#[test]
fn error_messages() {
    assert_eq!(
        Error::NomadReqErr("boom".to_string()).message(),
        "An error occurred while querying the HTTP endpoint of Nomad: boom"
    );
    assert_eq!(Error::Dispatch.message(), "Job dispatching has fail");
    assert_eq!(Error::MaxRetry.message(), "Max retry has been achieved when fetching data");
    assert_eq!(Error::MissingTask.message(), "The selected task could not be found");
    assert_eq!(
        Error::ScenarioErr("x".to_string()).message(),
        "The command has stopped due to: x"
    );
    assert_eq!(
        Error::MissingEnv("NOMAD_ADDR".to_string()).message(),
        "Unable to find environment variable due to: NOMAD_ADDR"
    );
    assert_eq!(Error::Serialize("e".to_string()).message(), "Error while serializing data: e");
    assert_eq!(Error::ScenarioFinished.message(), "No option selected. Terminating the program");
}
