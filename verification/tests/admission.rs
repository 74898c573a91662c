use vault_rate_limiter::engine::{decide, Decision, RateLimitedError, RateLimiter};
use vault_rate_limiter::policy::RateLimit;

#[test]
fn burst_counts_down_then_denies() {
    // limit=3, window=60s: requests 1..3 allow with remaining 2, 1, 0;
    // request 4 is denied with retry-after t0+60.
    let mut limiter = RateLimiter::new();
    let policy = RateLimit::new(3);
    assert_eq!(limiter.log_usage("POST /vault", "abc", &policy, 0), Ok((2, 60)));
    assert_eq!(limiter.log_usage("POST /vault", "abc", &policy, 0), Ok((1, 60)));
    assert_eq!(limiter.log_usage("POST /vault", "abc", &policy, 0), Ok((0, 60)));
    assert_eq!(
        limiter.log_usage("POST /vault", "abc", &policy, 0),
        Err(RateLimitedError { time_when_refreshed: 60 })
    );
}

#[test]
fn end_to_end_example() {
    // limit=3, window=60s, credential "abc", route "POST /vault":
    // t=0 Allow(2); t=1 Allow(1); t=2 Allow(0); t=3 Deny(retry=60);
    // t=61 Allow(2).
    let mut limiter = RateLimiter::new();
    let policy = RateLimit::new(3);
    assert_eq!(limiter.log_usage("POST /vault", "abc", &policy, 0), Ok((2, 60)));
    assert_eq!(limiter.log_usage("POST /vault", "abc", &policy, 1), Ok((1, 60)));
    assert_eq!(limiter.log_usage("POST /vault", "abc", &policy, 2), Ok((0, 60)));
    assert_eq!(
        limiter.log_usage("POST /vault", "abc", &policy, 3),
        Err(RateLimitedError { time_when_refreshed: 60 })
    );
    assert_eq!(limiter.log_usage("POST /vault", "abc", &policy, 61), Ok((2, 121)));
}

#[test]
fn window_reset_after_exhaustion() {
    // An exhausted window resets the moment the expiry is reached.
    let mut limiter = RateLimiter::new();
    let policy = RateLimit::new(2);
    assert_eq!(limiter.log_usage("GET /vault/items", "tok", &policy, 0), Ok((1, 60)));
    assert_eq!(limiter.log_usage("GET /vault/items", "tok", &policy, 0), Ok((0, 60)));
    assert!(limiter.log_usage("GET /vault/items", "tok", &policy, 59).is_err());
    assert_eq!(limiter.log_usage("GET /vault/items", "tok", &policy, 60), Ok((1, 120)));
}

#[test]
fn window_reset_when_not_exhausted() {
    // The reset happens whether or not the previous window was used up.
    let mut limiter = RateLimiter::new();
    let policy = RateLimit::new(3);
    assert_eq!(limiter.log_usage("POST /vault", "t", &policy, 5), Ok((2, 65)));
    assert_eq!(limiter.log_usage("POST /vault", "t", &policy, 65), Ok((2, 125)));
}

#[test]
fn denial_does_not_mutate() {
    // Repeated denied requests keep returning the same retry-after and
    // never extend the window.
    let mut limiter = RateLimiter::new();
    let policy = RateLimit::new(1);
    assert_eq!(limiter.log_usage("POST /vault", "k", &policy, 10), Ok((0, 70)));
    for t in 11..20 {
        assert_eq!(
            limiter.log_usage("POST /vault", "k", &policy, t),
            Err(RateLimitedError { time_when_refreshed: 70 })
        );
    }
    assert_eq!(limiter.log_usage("POST /vault", "k", &policy, 70), Ok((0, 130)));
}

#[test]
fn clock_rewind_does_not_reset() {
    // A clock value earlier than the stored expiry must not be treated
    // as an elapsed window.
    let mut limiter = RateLimiter::new();
    let policy = RateLimit::new(1);
    assert_eq!(limiter.log_usage("POST /vault", "k", &policy, 100), Ok((0, 160)));
    assert_eq!(
        limiter.log_usage("POST /vault", "k", &policy, 50),
        Err(RateLimitedError { time_when_refreshed: 160 })
    );
}

#[test]
fn isolation_between_keys() {
    // Exhausting (route A, credential X) changes nothing for
    // (route A, credential Y) or (route B, credential X).
    let mut limiter = RateLimiter::new();
    let policy = RateLimit::new(1);
    assert_eq!(limiter.log_usage("POST /vault", "x", &policy, 0), Ok((0, 60)));
    assert!(limiter.log_usage("POST /vault", "x", &policy, 1).is_err());
    assert_eq!(limiter.log_usage("POST /vault", "y", &policy, 1), Ok((0, 61)));
    assert_eq!(limiter.log_usage("GET /vault/items", "x", &policy, 1), Ok((0, 61)));
    assert!(limiter.log_usage("POST /vault", "x", &policy, 2).is_err());
}

#[test]
fn thousand_requests_allow_exactly_limit() {
    // 1000 serialized requests for one key with limit=3 and no time
    // advance: exactly 3 allows carrying remaining 2, 1, 0 once each,
    // and 997 denies.
    let mut limiter = RateLimiter::new();
    let policy = RateLimit::new(3);
    let mut allowed: Vec<u64> = Vec::new();
    let mut denied: usize = 0;
    for _ in 0..1000 {
        match limiter.log_usage("POST /vault", "abc", &policy, 0) {
            Ok((remaining, expiry)) => {
                assert_eq!(expiry, 60);
                allowed.push(remaining);
            }
            Err(err) => {
                assert_eq!(err.time_when_refreshed, 60);
                denied += 1;
            }
        }
    }
    assert_eq!(allowed, vec![2, 1, 0]);
    assert_eq!(denied, 997);
}

#[test]
fn decide_covers_all_branches() {
    let policy = RateLimit::new(3);
    // Unseen key: fresh window, one unit consumed.
    assert_eq!(decide(None, &policy, 0), (Decision::Allow(2), (2, 60)));
    // Window elapsed: unconditional reset.
    assert_eq!(decide(Some((0, 60)), &policy, 61), (Decision::Allow(2), (2, 121)));
    assert_eq!(decide(Some((2, 60)), &policy, 60), (Decision::Allow(2), (2, 120)));
    // Requests remaining: decrement.
    assert_eq!(decide(Some((2, 60)), &policy, 1), (Decision::Allow(1), (1, 60)));
    // Exhausted: deny, record unchanged.
    assert_eq!(decide(Some((0, 60)), &policy, 1), (Decision::Deny(60), (0, 60)));
}
