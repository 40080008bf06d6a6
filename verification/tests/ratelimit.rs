//! Scenario tests for the rate limiter and the REST core policy.

use discord_tokio::{
    error_from_status, may_retry, Error, RateHeaders, RateLimits, RetryReason, GLOBAL_LIMIT,
};

fn no_headers(status: u16) -> RateHeaders {
    RateHeaders {
        limit: None,
        remaining: None,
        reset: None,
        retry_after: None,
        global: false,
        status,
    }
}

#[test]
fn the_global_window_admits_its_limit_and_parks_the_rest() {
    let mut rl = RateLimits::new(1_000_000);
    // Each caller uses a route of its own, so only the global budget counts.
    for k in 0..GLOBAL_LIMIT {
        let now = 1_000_000 + k as i64;
        let route = format!("/a/{}", k);
        assert_eq!(rl.pre_check(&route, now, 0), None, "request {} should pass", k);
    }
    // The fifty-first caller inside the window is parked until its end.
    let parked = rl.pre_check("/a/50", 1_000_100, 0);
    assert_eq!(parked, Some(1_001_000));
    // Once the window elapsed, counting restarts.
    assert_eq!(rl.pre_check("/a/50", 1_001_200, 0), None);
}

#[test]
fn global_429_saturates_the_bucket_and_parks_every_route() {
    let mut rl = RateLimits::new(1_000_000);
    assert_eq!(rl.pre_check("/a", 1_000_000, 0), None);
    assert_eq!(rl.pre_check("/a", 1_000_001, 0), None);

    // Both callers on `/a` receive a global 429 asking for 500 ms.
    let answer = RateHeaders {
        limit: None,
        remaining: None,
        reset: Some(2_000),  // seconds: the global window re-anchors here
        retry_after: Some(500),
        global: true,
        status: 429,
    };
    assert_eq!(rl.post_update("/a", &answer), Ok(Some(600)));
    assert_eq!(rl.post_update("/a", &answer), Ok(Some(600)));

    // The bucket is saturated: a third caller, on another route, started
    // during the park is delayed too, until the reported reset.
    let parked = rl.pre_check("/b", 2_000_500, 3);
    assert_eq!(parked, Some(2_001_000));
}

#[test]
fn per_route_exhaustion_without_a_429_parks_until_reset() {
    let mut rl = RateLimits::new(1_000_000);
    assert_eq!(rl.pre_check("/guilds/1", 1_000_000, 0), None);

    // The response's headers say the route is spent until two seconds on.
    let answer = RateHeaders {
        limit: Some(5),
        remaining: Some(0),
        reset: Some(1_002),  // seconds
        retry_after: None,
        global: false,
        status: 200,
    };
    assert_eq!(rl.post_update("/guilds/1", &answer), Ok(None));

    // The next call is parked until the reset, plus the jitter draw.
    let parked = rl.pre_check("/guilds/1", 1_000_400, 7);
    assert_eq!(parked, Some(1_002_007));

    // After the reset instant the route refills and proceeds.
    assert_eq!(rl.pre_check("/guilds/1", 1_002_100, 0), None);
}

#[test]
fn optimistic_decrements_spend_the_assumed_allowance() {
    let mut rl = RateLimits::new(1_000_000);
    // A fresh route refills to the assumed allowance of five on the first
    // request; the five after it decrement the budget down to zero.
    for k in 0..6 {
        assert_eq!(rl.pre_check("/c", 1_000_000 + k, 0), None);
    }
    // The next one inside the window is parked until the refill's margin.
    assert_eq!(rl.pre_check("/c", 1_000_010, 2), Some(1_001_002));
}

#[test]
fn authoritative_headers_correct_the_optimistic_counts() {
    let mut rl = RateLimits::new(1_000_000);
    for k in 0..5 {
        assert_eq!(rl.pre_check("/d", 1_000_000 + k, 0), None);
    }
    // The platform reports plenty of budget left; the park dissolves.
    let answer = RateHeaders {
        limit: Some(10),
        remaining: Some(9),
        reset: Some(1_005),
        retry_after: None,
        global: false,
        status: 200,
    };
    assert_eq!(rl.post_update("/d", &answer), Ok(None));
    assert_eq!(rl.pre_check("/d", 1_000_010, 0), None);
}

#[test]
fn negative_or_huge_header_values_never_poison_a_bucket() {
    let mut rl = RateLimits::new(1_000_000);
    assert_eq!(rl.pre_check("/e", 1_000_000, 0), None);
    let answer = RateHeaders {
        limit: Some(-5),
        remaining: Some(-3),
        reset: Some(i64::MAX),
        retry_after: None,
        global: false,
        status: 200,
    };
    assert_eq!(rl.post_update("/e", &answer), Ok(None));
    // The clamped bucket still behaves: remaining zero, window kept.
    let parked = rl.pre_check("/e", 1_000_001, 0);
    assert!(parked.is_some());
}

#[test]
fn an_unseeded_route_needs_the_limit_header() {
    let mut rl = RateLimits::new(1_000_000);
    let err = rl.post_update("/fresh", &no_headers(200));
    assert!(matches!(err, Err(Error::Other(_))));
    // A seeded route tolerates sparse headers.
    assert_eq!(rl.pre_check("/fresh", 1_000_000, 0), None);
    assert_eq!(rl.post_update("/fresh", &no_headers(200)), Ok(None));
}

#[test]
fn a_429_with_retry_after_asks_for_one_retry_with_leeway() {
    let mut rl = RateLimits::new(1_000_000);
    assert_eq!(rl.pre_check("/f", 1_000_000, 0), None);
    let answer = RateHeaders {
        limit: Some(5),
        remaining: Some(0),
        reset: Some(1_001),
        retry_after: Some(500),
        global: false,
        status: 429,
    };
    // The delay is the reported one plus exactly the hundred leeway.
    assert_eq!(rl.post_update("/f", &answer), Ok(Some(600)));

    // The retry policy allows exactly one retry, for any reason.
    assert!(may_retry(0, RetryReason::RateLimited));
    assert!(!may_retry(1, RetryReason::RateLimited));
    assert!(may_retry(0, RetryReason::ConnectFailed));
    assert!(!may_retry(1, RetryReason::ConnectFailed));
    assert!(!may_retry(2, RetryReason::RateLimited));
}

#[test]
fn the_update_entry_point_applies_the_same_step() {
    // The public entry point rewrites the addressed route's bucket just as
    // the underlying step does: the authoritative remaining overwrites the
    // optimistic decrements and the next pre-check proceeds.
    let mut rl = RateLimits::new(1_000_000);
    for k in 0..6 {
        assert_eq!(rl.pre_check("/h", 1_000_000 + k, 0), None);
    }
    assert!(rl.pre_check("/h", 1_000_010, 0).is_some());
    let answer = RateHeaders {
        limit: Some(10),
        remaining: Some(9),
        reset: Some(1_005),
        retry_after: None,
        global: false,
        status: 200,
    };
    assert_eq!(rl.update("/h", &answer), Ok(None));
    assert_eq!(rl.pre_check("/h", 1_000_020, 0), None);

    // And a global answer through the entry point touches only the global
    // bucket, gating every route.
    let global_answer = RateHeaders {
        limit: None,
        remaining: None,
        reset: Some(2_000),
        retry_after: Some(500),
        global: true,
        status: 429,
    };
    assert_eq!(rl.update("/h", &global_answer), Ok(Some(600)));
    assert!(rl.pre_check("/other", 2_000_100, 0).is_some());
}

#[test]
fn a_429_without_retry_after_is_not_retried() {
    let mut rl = RateLimits::new(1_000_000);
    assert_eq!(rl.pre_check("/g", 1_000_000, 0), None);
    assert_eq!(rl.post_update("/g", &no_headers(429)), Ok(None));
}

#[test]
fn rest_errors_carry_the_status_the_body_or_the_delay() {
    let body: serde_json::Value = serde_json::from_str("{\"message\":\"missing\"}").unwrap();
    assert_eq!(
        error_from_status(429, Some(250), None),
        Error::RateLimited(250)
    );
    assert_eq!(error_from_status(429, None, None), Error::Status(429, None));
    assert_eq!(
        error_from_status(404, Some(250), Some(body.clone())),
        Error::Status(404, Some(body.clone()))
    );
    assert_eq!(error_from_status(500, None, None), Error::Status(500, None));
}
