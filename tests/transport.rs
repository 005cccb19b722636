use master_home::error::{ErrorKind, LlmError};
use master_home::transport::{has_api_key, on_outcome, resolve_api_key, AttemptOutcome, Step};

/// Runs the retry rules over recorded outcomes; answers the result and the
/// number of attempts made.
fn run(outcomes: Vec<AttemptOutcome>, max_attempts: u32) -> (Result<String, LlmError>, usize) {
    let mut attempt: u32 = 1;
    for o in outcomes {
        match on_outcome(attempt, max_attempts, o) {
            Step::Done(r) => return (r, attempt as usize),
            Step::Retry(_) => attempt += 1,
        }
    }
    panic!("more attempts were asked for than outcomes were recorded");
}

#[test]
fn retries_timeouts_until_success() {
    let (r, n) = run(
        vec![AttemptOutcome::Timeout, AttemptOutcome::Timeout, AttemptOutcome::Response(200, "body".to_string())],
        3,
    );
    assert_eq!(r.unwrap(), "body");
    assert_eq!(n, 3);
}

#[test]
fn three_timeouts_end_on_the_third() {
    let (r, n) = run(
        vec![AttemptOutcome::Timeout, AttemptOutcome::Timeout, AttemptOutcome::Timeout, AttemptOutcome::Response(200, "late".to_string())],
        3,
    );
    let e = r.unwrap_err();
    assert!(matches!(e, LlmError::Timeout));
    assert_eq!(e.kind(), ErrorKind::Transport);
    assert_eq!(n, 3);
}

#[test]
fn client_error_is_terminal() {
    let (r, n) = run(
        vec![AttemptOutcome::Response(400, "bad".to_string()), AttemptOutcome::Response(200, "ok".to_string())],
        5,
    );
    let e = r.unwrap_err();
    assert!(matches!(&e, LlmError::HttpStatus(400, b) if b == "bad"));
    assert_eq!(e.kind(), ErrorKind::HttpStatus);
    assert_eq!(n, 1);
}

#[test]
fn server_error_is_retried_then_surfaced() {
    let (r, n) = run(
        vec![
            AttemptOutcome::Response(503, "busy".to_string()),
            AttemptOutcome::Network("reset".to_string()),
            AttemptOutcome::Response(500, "down".to_string()),
        ],
        3,
    );
    assert!(matches!(r, Err(LlmError::HttpStatus(500, ref b)) if b == "down"));
    assert_eq!(n, 3);
}

#[test]
fn network_failure_then_success() {
    let (r, n) = run(
        vec![AttemptOutcome::Network("refused".to_string()), AttemptOutcome::Response(201, "x".to_string())],
        3,
    );
    assert_eq!(r.unwrap(), "x");
    assert_eq!(n, 2);
}

#[test]
fn single_attempt_budget() {
    let (r, n) = run(vec![AttemptOutcome::Timeout, AttemptOutcome::Timeout], 1);
    assert!(matches!(r, Err(LlmError::Timeout)));
    assert_eq!(n, 1);
}

#[test]
fn keys() {
    assert_eq!(resolve_api_key(Some("abc")), "abc");
    assert_eq!(resolve_api_key(None), "not_key");
    assert!(has_api_key("abc"));
    assert!(!has_api_key("not_key"));
    assert!(!has_api_key(""));
}

#[test]
fn error_descriptions_and_kinds() {
    assert_eq!(
        LlmError::HttpStatus(401, "unauthorized".to_string()).description(),
        "HTTP status error 401: unauthorized"
    );
    assert_eq!(LlmError::Decode("eof".to_string()).description(), "Failed to parse response: eof");
    assert_eq!(LlmError::Decode("eof".to_string()).kind(), ErrorKind::Decode);
    assert_eq!(LlmError::MissingApiKey.kind(), ErrorKind::Configuration);
    assert!(LlmError::Network("x".to_string()).is_transient());
    assert!(LlmError::HttpStatus(502, String::new()).is_transient());
    assert!(!LlmError::HttpStatus(404, String::new()).is_transient());
    assert!(!LlmError::Decode(String::new()).is_transient());
}
