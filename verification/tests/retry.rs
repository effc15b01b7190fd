use writ_client::request::Method;
use writ_client::retry::{
    clock_jitter, idempotency_key, is_safe_method, should_retry_status, Attempts, Next,
    RetryPolicy,
};
use writ_client::time::{seconds_of, subsecond_of, Duration};

fn fast() -> RetryPolicy {
    RetryPolicy {
        max_attempts: 4,
        base_delay: Duration::from_millis(1),
        max_delay: Duration::from_millis(5),
        ..RetryPolicy::default()
    }
}

#[test]
fn default_policy() {
    let p = RetryPolicy::default();
    assert_eq!(p.max_attempts, 4);
    assert_eq!(p.base_delay, Duration::from_millis(250));
    assert_eq!(p.max_delay, Duration::from_secs(8));
    assert_eq!(p.max_retry_after, Duration::from_secs(30));
    assert!(!p.retry_unsafe_methods);
    assert_eq!(RetryPolicy::off().max_attempts, 1);
}

#[test]
fn attempts_depend_on_the_method() {
    let p = RetryPolicy::default();
    for m in [Method::Get, Method::Head, Method::Options] {
        assert!(is_safe_method(m));
        assert_eq!(p.attempts_for(m), 4);
    }
    for m in [Method::Post, Method::Put, Method::Patch, Method::Delete] {
        assert!(!is_safe_method(m));
        assert_eq!(p.attempts_for(m), 1);
        assert_eq!(p.with_unsafe(true).attempts_for(m), 4);
    }
    let zero = RetryPolicy {
        max_attempts: 0,
        ..p
    };
    assert_eq!(zero.attempts_for(Method::Get), 1);
}

#[test]
fn transient_statuses() {
    for s in [408, 425, 429, 500, 502, 503, 504] {
        assert!(should_retry_status(s));
    }
    for s in [200, 301, 400, 401, 404, 409, 501, 505] {
        assert!(!should_retry_status(s));
    }
}

#[test]
fn waits_double_up_to_the_cap() {
    let p = RetryPolicy::default();
    let half = |attempt, jitter| p.backoff_with(attempt, jitter).as_nanos();
    assert_eq!(half(1, 0), 125_000_000);
    assert_eq!(half(0, 0), 125_000_000);
    assert_eq!(half(2, 0), 250_000_000);
    assert_eq!(half(3, 0), 500_000_000);
    assert_eq!(half(6, 0), 4_000_000_000);
    assert_eq!(half(40, 0), 4_000_000_000);
    assert_eq!(half(1, 125_000_001), 125_000_001);
    assert_eq!(half(1, 124_999_999), 249_999_999);
    let zero = RetryPolicy {
        base_delay: Duration::from_nanos(0),
        max_delay: Duration::from_nanos(0),
        ..p
    };
    assert_eq!(zero.backoff_with(1, 0).as_nanos(), 125_000_000);
    assert_eq!(zero.backoff_with(30, 0).as_nanos(), 4_000_000_000);
    let tiny = RetryPolicy {
        base_delay: Duration::from_nanos(1),
        ..p
    };
    assert_eq!(tiny.backoff_with(1, 99).as_nanos(), 0);
    let huge = RetryPolicy {
        base_delay: Duration::from_secs(u64::MAX),
        max_delay: Duration::from_secs(u64::MAX),
        ..p
    };
    assert_eq!(
        huge.backoff_with(5, 0).as_nanos(),
        (u64::MAX as u128 * 1_000_000_000 % (1u128 << 64)) / 2
    );
}

#[test]
fn waits_by_the_clock_stay_in_range() {
    assert!(clock_jitter() < 1_000_000_000);
    for attempt in 1..6 {
        let wait = fast().backoff(attempt).as_nanos();
        assert!((500_000..=5_000_000).contains(&wait));
    }
    // Half of the cap of eight seconds, and less than a second of jitter.
    let wait = RetryPolicy::default().backoff(9).as_nanos();
    assert!((4_000_000_000..5_000_000_000).contains(&wait));
}

#[test]
fn transient_server_error_is_retried() {
    let mut a = Attempts::start(fast(), Method::Get, true);
    let mut sent = 1;
    for status in [503, 503, 200] {
        match a.on_answer(status, None, 0) {
            Next::Repeat(_) => sent += 1,
            Next::Finish => assert_eq!(status, 200),
        }
    }
    assert_eq!(sent, 3, "expected two retries");
}

#[test]
fn attempts_run_out() {
    let mut a = Attempts::start(fast(), Method::Get, true);
    let mut sent = 1;
    while let Next::Repeat(_) = a.on_failure(7) {
        sent += 1;
    }
    assert_eq!(sent, 4);
    assert_eq!(a.on_answer(503, None, 0), Next::Finish);
}

#[test]
fn unsafe_calls_to_the_daemon_are_sent_once() {
    let mut a = Attempts::start(fast(), Method::Post, true);
    assert_eq!(a.on_answer(503, None, 0), Next::Finish);
    assert_eq!(a.on_failure(0), Next::Finish);
    let mut cloud = Attempts::start(fast().with_unsafe(true), Method::Post, true);
    assert!(matches!(cloud.on_answer(502, None, 0), Next::Repeat(_)));
    let mut stream = Attempts::start(fast().with_unsafe(true), Method::Post, false);
    assert_eq!(stream.on_failure(0), Next::Finish);
}

#[test]
fn long_retry_after_is_not_slept_on() {
    let p = RetryPolicy::default();
    let mut a = Attempts::start(p, Method::Get, true);
    assert_eq!(
        a.on_answer(429, Some(Duration::from_secs(31)), 0),
        Next::Finish
    );
    assert_eq!(
        a.on_answer(429, Some(Duration::from_secs(30)), 0),
        Next::Repeat(Duration::from_secs(30))
    );
    assert_eq!(
        a.on_answer(429, Some(Duration::from_secs(0)), 5),
        Next::Repeat(Duration::from_secs(0))
    );
}

#[test]
fn keys_are_hexadecimal_and_distinct() {
    assert_eq!(idempotency_key(255, 16, 10), "writ-ff-10-a");
    assert_eq!(idempotency_key(0, 0, 0), "writ-0-0-0");
    assert_ne!(idempotency_key(1, 2, 3), idempotency_key(1, 3, 3));
}

#[test]
fn spans() {
    assert_eq!(Duration::new(1, 5).as_nanos(), 1_000_000_005);
    assert_eq!(Duration::new(u64::MAX, u32::MAX).as_secs(), u64::MAX);
    assert_eq!(Duration::from_millis(2500).as_secs(), 2);
    assert!(Duration::from_secs(2).longer_than(&Duration::from_millis(1999)));
    assert_eq!(
        Duration::from_secs(1).saturating_sub(&Duration::from_secs(2)),
        Duration::from_nanos(0)
    );
}

#[test]
fn clock_readings_are_split() {
    assert_eq!(seconds_of(Some((1_700_000_000, 25))), 1_700_000_000);
    assert_eq!(subsecond_of(Some((1_700_000_000, 999_999_999))), 999_999_999);
    assert_eq!(seconds_of(None), 0);
    assert_eq!(subsecond_of(None), 0);
}
