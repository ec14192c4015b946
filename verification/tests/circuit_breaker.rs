use lolshorts::circuit_breaker::{CircuitBreaker, CircuitBreakerConfig, CircuitState};
use std::time::Duration;

/// One guarded call at `now`: admission, then the outcome when admitted.
fn call(b: &mut CircuitBreaker, now: u64, ok: bool) -> Result<(), String> {
    match b.check_request(now) {
        Err(e) => Err(e),
        Ok(()) => {
            b.record(ok, now);
            if ok { Ok(()) } else { Err("Simulated failure".to_string()) }
        }
    }
}

#[test]
fn test_circuit_opens_after_threshold() {
    let config = CircuitBreakerConfig {
        failure_threshold: 3,
        success_threshold: 2,
        timeout: 1_000,
        failure_window: 10_000,
    };
    let mut breaker = CircuitBreaker::new("test_service".to_string(), config, 0);

    for i in 0..3 {
        assert!(call(&mut breaker, 10 * i, false).is_err());
        if i < 2 {
            assert_eq!(breaker.get_state(), CircuitState::Closed);
        }
    }
    assert_eq!(breaker.get_state(), CircuitState::Open);

    // Next request should fail fast
    let result = call(&mut breaker, 100, true);
    assert!(result.unwrap_err().contains("OPEN"));
    assert_eq!(breaker.allow_request(100), Err(920));
    assert_eq!(
        breaker.check_request(150).unwrap_err(),
        "Circuit breaker 'test_service' is OPEN - failing fast (opens in 870ms)"
    );
}

#[test]
fn test_circuit_half_open_recovery() {
    let config = CircuitBreakerConfig {
        failure_threshold: 2,
        success_threshold: 2,
        timeout: 100,
        failure_window: 10_000,
    };
    let mut breaker = CircuitBreaker::new("test_service".to_string(), config, 0);
    for _ in 0..2 {
        let _ = call(&mut breaker, 0, false);
    }
    assert_eq!(breaker.get_state(), CircuitState::Open);

    // After the timeout the next request moves to half-open.
    let _ = call(&mut breaker, 150, true);
    assert_eq!(breaker.get_state(), CircuitState::HalfOpen);

    let _ = call(&mut breaker, 160, true);
    assert_eq!(breaker.get_state(), CircuitState::Closed);
}

#[test]
fn test_manual_reset() {
    let config = CircuitBreakerConfig {
        failure_threshold: 1,
        success_threshold: 2,
        timeout: 10_000,
        failure_window: 10_000,
    };
    let mut breaker = CircuitBreaker::new("test_service".to_string(), config, 0);
    let _ = call(&mut breaker, 0, false);
    assert_eq!(breaker.get_state(), CircuitState::Open);

    breaker.reset(5);
    assert_eq!(breaker.get_state(), CircuitState::Closed);
    assert_eq!(breaker.get_failure_count(), 0);
}

#[test]
fn half_open_failure_reopens() {
    let config = CircuitBreakerConfig { failure_threshold: 1, success_threshold: 3, timeout: 50, failure_window: 1_000 };
    let mut breaker = CircuitBreaker::new("svc".to_string(), config, 0);
    let _ = call(&mut breaker, 0, false);
    let _ = call(&mut breaker, 60, true);
    assert_eq!(breaker.get_state(), CircuitState::HalfOpen);
    let _ = call(&mut breaker, 61, false);
    assert_eq!(breaker.get_state(), CircuitState::Open);
    assert!(call(&mut breaker, 100, true).is_err());
}

#[test]
fn old_failures_are_forgotten() {
    let config = CircuitBreakerConfig { failure_threshold: 2, success_threshold: 1, timeout: 50, failure_window: 1_000 };
    let mut breaker = CircuitBreaker::new("svc".to_string(), config, 0);
    let _ = call(&mut breaker, 0, false);
    assert_eq!(breaker.get_failure_count(), 1);
    // More than the window later the count starts again.
    let _ = call(&mut breaker, 1_001, false);
    assert_eq!(breaker.get_failure_count(), 1);
    assert_eq!(breaker.get_state(), CircuitState::Closed);
}

#[test]
fn config_presets() {
    let d = CircuitBreakerConfig::default();
    assert_eq!((d.failure_threshold, d.success_threshold, d.timeout, d.failure_window), (5, 2, 30_000, 60_000));
    let a = CircuitBreakerConfig::aggressive();
    assert_eq!((a.failure_threshold, a.timeout), (3, 10_000));
    let t = CircuitBreakerConfig::tolerant();
    assert_eq!((t.failure_threshold, t.success_threshold, t.failure_window), (10, 3, 120_000));
}

#[test]
fn fail_fast_durations_read_as_duration_debug() {

    for ms in [0u64, 1, 999, 1000, 1500, 1050, 1005, 61_234, 3_000] {
        let mut s = String::new();
        lolshorts::circuit_breaker::push_duration(&mut s, ms);
        assert_eq!(s, format!("{:?}", Duration::from_millis(ms)));
    }
}
