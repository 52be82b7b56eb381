use weibo_privacy::retry::{
    backoff_seconds, classify, is_success_status, next_wait, AttemptOutcome, MAX_RETRIES,
};
use weibo_privacy::ClientError;

#[test]
fn statuses_in_2xx_alone_are_successes() {
    assert!(!is_success_status(0));
    assert!(!is_success_status(199));
    assert!(is_success_status(200));
    assert!(is_success_status(204));
    assert!(is_success_status(299));
    assert!(!is_success_status(300));
    assert!(!is_success_status(404));
    assert!(!is_success_status(500));
    assert!(!is_success_status(u16::MAX));
}

#[test]
fn backoff_doubles_with_each_attempt() {
    assert_eq!(backoff_seconds(0), 1);
    assert_eq!(backoff_seconds(1), 2);
    assert_eq!(backoff_seconds(2), 4);
    assert_eq!(backoff_seconds(10), 1024);
    assert_eq!(backoff_seconds(63), 1u64 << 63);
}

#[test]
fn three_attempts_are_made_at_most() {
    assert_eq!(MAX_RETRIES, 3);
    assert_eq!(next_wait(0), Some(1));
    assert_eq!(next_wait(1), Some(2));
    assert_eq!(next_wait(2), None);
    assert_eq!(next_wait(3), None);
    assert_eq!(next_wait(u32::MAX), None);
}

#[test]
fn successful_answer_is_classified_by_its_body() {
    let outcome = AttemptOutcome::Response { status: 200, body: "payload".to_string() };
    assert_eq!(classify(outcome), Ok("payload".to_string()));
    let outcome = AttemptOutcome::Response { status: 299, body: String::new() };
    assert_eq!(classify(outcome), Ok(String::new()));
}

#[test]
fn failed_answer_is_classified_by_status_and_body() {
    let outcome = AttemptOutcome::Response { status: 503, body: "busy".to_string() };
    assert_eq!(classify(outcome), Err(ClientError::Http { status: 503, body: "busy".to_string() }));
    let outcome = AttemptOutcome::Response { status: 302, body: String::new() };
    assert_eq!(classify(outcome), Err(ClientError::Http { status: 302, body: String::new() }));
}

#[test]
fn transport_failure_is_classified_by_its_text() {
    let outcome = AttemptOutcome::TransportFailure { detail: "connection reset".to_string() };
    assert_eq!(
        classify(outcome),
        Err(ClientError::Transport { detail: "connection reset".to_string() })
    );
}
