use atrmnl::error::{Canonical, IntoCanonical};
use atrmnl::net::{Backoff, Retryable, RetryStep, TransportFailure};
use atrmnl::plugins::ticktick::FetchError;

fn failure(connect: bool, timeout: bool, status: Option<u16>) -> TransportFailure {
    TransportFailure {
        connect,
        timeout,
        request: false,
        decode: false,
        status,
        target: Some("https://api.example.com/x".to_string()),
    }
}

/// Runs the policy against an operation that ends as `results` says; the
/// clock advances by exactly the waits. Returns the number of invocations and
/// whether the call succeeded.
fn drive(mut policy: Backoff, results: &[Result<(), bool>], start_ms: u64) -> (usize, bool) {
    let mut now = start_ms;
    let mut calls = 0;
    for r in results {
        calls += 1;
        match r {
            Ok(()) => return (calls, true),
            Err(retryable) => match policy.after_failure(*retryable, now) {
                RetryStep::Stop => return (calls, false),
                RetryStep::Retry { wait_ms } => now += wait_ms,
            },
        }
    }
    (calls, false)
}

#[test]
fn success_after_transient_failures() {
    let results = [Err(true), Err(true), Err(true), Ok(())];
    assert_eq!(drive(Backoff::new(500, 120_000), &results, 0), (4, true));
}

#[test]
fn final_failure_is_not_retried() {
    let results = [Err(false), Ok(())];
    assert_eq!(drive(Backoff::new(500, 120_000), &results, 0), (1, false));
}

#[test]
fn short_deadline_stops_after_crossing_it() {
    let results = [Err(true); 10];
    assert_eq!(drive(Backoff::new(1000, 300), &results, 0), (2, false));
}

#[test]
fn backoff_doubles() {
    let mut b = Backoff::new(500, 10_000);
    assert_eq!(b.after_failure(true, 0), RetryStep::Retry { wait_ms: 500 });
    assert_eq!(b.after_failure(true, 500), RetryStep::Retry { wait_ms: 1000 });
    assert_eq!(b.after_failure(true, 1500), RetryStep::Retry { wait_ms: 2000 });
    assert_eq!(b.backoff_ms, 4000);
    assert_eq!(b.after_failure(true, 10_001), RetryStep::Stop);
    assert_eq!(b.backoff_ms, 4000);
}

#[test]
fn backoff_saturates() {
    let mut b = Backoff::new(u64::MAX - 1, u64::MAX);
    assert_eq!(b.after_failure(true, 0), RetryStep::Retry { wait_ms: u64::MAX - 1 });
    assert_eq!(b.backoff_ms, u64::MAX);
}

#[test]
fn only_connect_and_timeout_are_transient() {
    assert!(failure(true, false, None).should_retry());
    assert!(failure(false, true, None).should_retry());
    assert!(!failure(false, false, Some(500)).should_retry());
    assert!(!failure(false, false, None).should_retry());
}

#[test]
fn unreachable_endpoint_gives_up_after_deadline() {
    // Connection refused on each attempt, a 2 s deadline, 100 ms first wait.
    let mut policy = Backoff::new(100, 2000);
    let mut now: u64 = 0;
    let mut calls = 0;
    let last;
    loop {
        calls += 1;
        let f = failure(true, false, None);
        match policy.after_failure(f.should_retry(), now) {
            RetryStep::Stop => {
                last = f;
                break;
            }
            RetryStep::Retry { wait_ms } => now += wait_ms,
        }
    }
    assert!(now > 2000);
    assert!(now < 4000);
    assert_eq!(calls, 6);
    let canonical = FetchError::from_transport(last).into_generator_error().into_canonical();
    assert_eq!(canonical, Canonical::UpstreamUnavailable);
}
