use lolshorts::utils::retry::{RetryState, RetryStep};

/// Runs a retry loop over canned outcomes: `Ok(v)` or `Err(message)`.
fn run(max: u32, outcomes: &[Result<&str, &str>], retryable: impl Fn(&str) -> bool) -> (Result<String, String>, usize) {
    let mut state = RetryState::new(max);
    let mut calls = 0;
    while let Some(_attempt) = state.next_attempt() {
        let outcome = outcomes[calls.min(outcomes.len() - 1)];
        calls += 1;
        match outcome {
            Ok(v) => return (Ok(v.to_string()), calls),
            Err(e) => match state.record_failure("test_operation", e.to_string(), retryable(e)) {
                RetryStep::GiveUp(m) | RetryStep::Exhausted(m) => return (Err(m), calls),
                RetryStep::WaitThenRetry(_) => {}
            },
        }
    }
    (Err(state.exhausted_error("test_operation")), calls)
}

#[test]
fn test_retry_succeeds_on_third_attempt() {
    let (result, calls) = run(5, &[Err("Simulated failure"), Err("Simulated failure"), Ok("Success")], |_| true);
    assert_eq!(result.unwrap(), "Success");
    assert_eq!(calls, 3);
}

#[test]
fn test_retry_fails_after_max_attempts() {
    let (result, calls) = run(3, &[Err("Always fails")], |_| true);
    let err = result.unwrap_err();
    assert!(err.contains("Failed after 3 attempts"));
    assert_eq!(err, "test_operation: Failed after 3 attempts. Last error: Always fails");
    assert_eq!(calls, 3);
}

#[test]
fn test_retry_with_condition_non_retryable() {
    let (result, calls) = run(3, &[Err("permanent error")], |e| !e.contains("permanent"));
    assert!(result.is_err());
    let err = result.unwrap_err();
    assert!(err.contains("Non-retryable"));
    assert_eq!(err, "test_operation: Non-retryable error: permanent error");
    assert_eq!(calls, 1);
}

#[test]
fn retry_steps_and_backoff_attempts() {
    let mut state = RetryState::new(2);
    assert_eq!(state.next_attempt(), Some(0));
    assert!(matches!(state.record_failure("op", "e1".to_string(), true), RetryStep::WaitThenRetry(0)));
    assert_eq!(state.next_attempt(), Some(1));
    match state.record_failure("op", "e2".to_string(), true) {
        RetryStep::Exhausted(m) => assert_eq!(m, "op: Failed after 2 attempts. Last error: e2"),
        other => panic!("unexpected {:?}", other),
    }
    assert_eq!(state.next_attempt(), None);
    assert_eq!(RetryState::new(0).exhausted_error("op"), "op: Failed after 0 attempts. Last error: Unknown error");
}
