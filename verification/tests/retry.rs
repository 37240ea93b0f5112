use exmo_exchange::retry::{AttemptStep, Attempts, RetryDecision, RetryErrorHandler, SERVICE_ATTEMPTS, SERVICE_PAUSE_MILLIS};

#[test]
fn retry_handler_starts_at_first_attempt() {
    let h: RetryErrorHandler<&str> = RetryErrorHandler::new(3, 5);
    assert_eq!(h.current_attempt(), 1);
    assert_eq!(h.max_attempts(), 3);
    assert_eq!(h.duration_secs(), 5);
}

#[test]
fn retry_handler_retries_then_forwards() {
    let mut h = RetryErrorHandler::new(3, 5);
    assert_eq!(h.handle("a"), RetryDecision::WaitRetry(5));
    assert_eq!(h.current_attempt(), 2);
    assert_eq!(h.handle("b"), RetryDecision::WaitRetry(5));
    assert_eq!(h.handle("c"), RetryDecision::ForwardError("c"));
    assert_eq!(h.handle("d"), RetryDecision::ForwardError("d"));
    assert_eq!(h.current_attempt(), 5);
}

#[test]
fn retry_handler_with_one_attempt_never_retries() {
    let mut h = RetryErrorHandler::new(1, 9);
    assert_eq!(h.handle(7u32), RetryDecision::ForwardError(7));
    let mut h = RetryErrorHandler::new(0, 9);
    assert_eq!(h.handle(8u32), RetryDecision::ForwardError(8));
}

#[test]
fn service_attempts() {
    assert_eq!(SERVICE_ATTEMPTS, 3);
    assert_eq!(SERVICE_PAUSE_MILLIS, 200);
    let mut a = Attempts::new();
    assert_eq!(a.failed(), 0);
    assert_eq!(a.after_failure(), AttemptStep::Retry);
    assert_eq!(a.after_failure(), AttemptStep::Retry);
    assert_eq!(a.after_failure(), AttemptStep::GiveUp);
    assert_eq!(a.failed(), 3);
}
