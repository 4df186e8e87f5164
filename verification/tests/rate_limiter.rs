use ampup::rate_limiter::{GitHubRateLimiter, PauseDecision, RateLimiterState};
use ampup::response::{parse_u64, Header, ResponseHead};

fn header(name: &str, value: &str) -> Header {
    Header { name: name.to_string(), value: value.as_bytes().to_vec() }
}

#[test]
fn with_no_active_pause_returns_immediately() {
    let limiter = GitHubRateLimiter::new(true);
    let result = limiter.wait_if_paused(5_000);
    assert!(matches!(result, PauseDecision::Proceed), "should succeed when no pause is set");
}

#[test]
fn with_expired_pause_returns_immediately() {
    let mut limiter = GitHubRateLimiter::new(false);
    limiter.update_state(0, 1_700_000_000, 429, None, None, Some(1));
    let result = limiter.wait_if_paused(2_000);
    assert!(matches!(result, PauseDecision::Proceed), "should succeed when pause has expired");
    let at_the_end = limiter.wait_if_paused(1_000);
    assert!(matches!(at_the_end, PauseDecision::Proceed));
}

#[test]
fn with_active_pause_blocks_until_expiry() {
    let mut limiter = GitHubRateLimiter::new(true);
    limiter.update_state(0, 1_700_000_000, 429, None, None, Some(1));
    let result = limiter.wait_if_paused(900);
    match result {
        PauseDecision::Sleep { millis } => {
            assert!(millis >= 90, "should block for approximately the pause duration");
            assert_eq!(millis, 100);
        }
        _ => panic!("should succeed for short pauses"),
    }
}

#[test]
fn with_pause_exceeding_max_fails_immediately() {
    let mut limiter = GitHubRateLimiter::new(false);
    limiter.update_state(0, 1_700_000_000, 429, None, None, Some(60 + 1));
    let result = limiter.wait_if_paused(0);
    match result {
        PauseDecision::TooLong { remaining_millis } => {
            assert!(remaining_millis > 60 * 1000, "should return the remaining pause duration");
            assert_eq!(remaining_millis, 61_000);
        }
        _ => panic!("should fail when pause exceeds 60"),
    }
}

#[test]
fn pause_of_thirty_seconds_is_slept_through() {
    let mut limiter = GitHubRateLimiter::new(true);
    limiter.update_state(10_000, 1_700_000_000, 429, None, None, Some(30));
    match limiter.wait_if_paused(10_000) {
        PauseDecision::Sleep { millis } => assert_eq!(millis, 30_000),
        _ => panic!("a pause of 30 seconds is waited for"),
    }
}

#[test]
fn pause_of_exactly_sixty_seconds_is_slept_through() {
    let mut limiter = GitHubRateLimiter::new(true);
    limiter.update_state(0, 0, 429, None, None, None);
    match limiter.wait_if_paused(0) {
        PauseDecision::Sleep { millis } => assert_eq!(millis, 60_000),
        _ => panic!("a pause of 60 seconds is still waited for"),
    }
}

#[test]
fn with_429_and_no_retry_after_defaults_to_60s() {
    let mut limiter = GitHubRateLimiter::new(false);
    let result = limiter.update_state(1_000, 1_700_000_000, 429, None, None, None);
    assert_eq!(result, Some(60), "should default to 60 seconds when Retry-After header is absent");
    assert_eq!(limiter.paused_until(), Some(61_000));
}

#[test]
fn with_429_and_retry_after_uses_it() {
    let mut limiter = GitHubRateLimiter::new(false);
    let result = limiter.update_state(1_000, 1_700_000_000, 429, Some(7), None, Some(5));
    assert_eq!(result, Some(5));
    assert_eq!(limiter.paused_until(), Some(6_000));
    assert_eq!(limiter.remaining(), Some(7));
}

#[test]
fn with_403_and_remaining_zero_treats_as_rate_limited() {
    let mut limiter = GitHubRateLimiter::new(true);
    let result = limiter.update_state(0, 1_700_000_000, 403, Some(0), None, None);
    assert_eq!(result, Some(60), "should treat 403 with remaining=0 as rate-limited");
}

#[test]
fn with_403_and_retry_after_treats_as_rate_limited() {
    let mut limiter = GitHubRateLimiter::new(true);
    let result = limiter.update_state(0, 1_700_000_000, 403, None, None, Some(12));
    assert_eq!(result, Some(12));
    assert_eq!(limiter.paused_until(), Some(12_000));
}

#[test]
fn with_403_and_no_rate_limit_signal_ignores() {
    let mut limiter = GitHubRateLimiter::new(true);
    let result = limiter.update_state(0, 1_700_000_000, 403, None, None, None);
    assert_eq!(result, None, "should not treat a plain 403 as rate-limited");
    assert_eq!(limiter.paused_until(), None);
    assert_eq!(limiter.remaining(), None);
}

#[test]
fn with_remaining_zero_and_past_reset_skips_pause() {
    let mut limiter = GitHubRateLimiter::new(true);
    let now_unix = 1_700_000_000;
    let past_reset = now_unix - 60;
    limiter.update_state(0, now_unix, 200, Some(0), Some(past_reset), None);
    assert!(
        limiter.paused_until().is_none(),
        "should not pause when the reset timestamp is already in the past"
    );
    limiter.update_state(0, now_unix, 200, Some(0), Some(now_unix), None);
    assert!(limiter.paused_until().is_none());
}

#[test]
fn with_remaining_zero_and_future_reset_pauses_until_reset() {
    let mut limiter = GitHubRateLimiter::new(true);
    let now_unix = 1_700_000_000;
    let result = limiter.update_state(5_000, now_unix, 200, Some(0), Some(now_unix + 120), None);
    assert_eq!(result, None);
    assert_eq!(limiter.paused_until(), Some(125_000));
}

#[test]
fn pause_is_never_shortened() {
    let mut limiter = GitHubRateLimiter::new(true);
    limiter.update_state(0, 0, 429, None, None, Some(100));
    assert_eq!(limiter.paused_until(), Some(100_000));
    limiter.update_state(1_000, 0, 429, None, None, Some(5));
    assert_eq!(limiter.paused_until(), Some(100_000));
    limiter.update_state(1_000, 0, 429, None, None, Some(200));
    assert_eq!(limiter.paused_until(), Some(201_000));
    limiter.update_state(2_000, 10, 200, Some(0), Some(20), None);
    assert_eq!(limiter.paused_until(), Some(201_000));
}

#[test]
fn huge_retry_after_does_not_overflow() {
    let mut limiter = GitHubRateLimiter::new(true);
    let result = limiter.update_state(u64::MAX, 0, 429, None, None, Some(u64::MAX));
    assert_eq!(result, Some(u64::MAX));
    let expected = u64::MAX as u128 + u64::MAX as u128 * 1000;
    assert_eq!(limiter.paused_until(), Some(expected));
}

#[test]
fn extend_pause_keeps_the_later_end() {
    let mut state = RateLimiterState { paused_until: None, remaining: Some(3) };
    state.extend_pause(50);
    assert_eq!(state.paused_until, Some(50));
    state.extend_pause(40);
    assert_eq!(state.paused_until, Some(50));
    state.extend_pause(60);
    assert_eq!(state.paused_until, Some(60));
    assert_eq!(state.remaining, Some(3));
}

#[test]
fn with_ok_status_parses_remaining_header() {
    let response = ResponseHead {
        status: 200,
        headers: vec![
            header("x-ratelimit-remaining", "42"),
            header("x-ratelimit-reset", "1700000000"),
            header("content-length", "0"),
        ],
    };
    let mut limiter = GitHubRateLimiter::new(true);
    let result = limiter.update_from_response(0, 1_700_000_100, &response);
    assert_eq!(result, None, "should not signal retry for 200 OK");
    assert_eq!(limiter.remaining(), Some(42), "should parse X-RateLimit-Remaining header");
}

#[test]
fn with_429_status_returns_retry_after() {
    let response = ResponseHead {
        status: 429,
        headers: vec![
            header("Retry-After", "30"),
            header("X-RateLimit-Remaining", "0"),
            header("Content-Length", "0"),
        ],
    };
    let mut limiter = GitHubRateLimiter::new(true);
    let result = limiter.update_from_response(0, 1_700_000_000, &response);
    assert_eq!(result, Some(30), "should return Retry-After value on 429");
    assert_eq!(
        limiter.remaining(),
        Some(0),
        "should parse X-RateLimit-Remaining from 429 response"
    );
}

#[test]
fn with_remaining_zero_sets_preemptive_pause() {
    let now_unix: u64 = 1_700_000_000;
    let future_reset = now_unix + 120;
    let response = ResponseHead {
        status: 200,
        headers: vec![
            header("X-RateLimit-Remaining", "0"),
            header("X-RateLimit-Reset", &format!("{}", future_reset)),
            header("Content-Length", "0"),
        ],
    };
    let mut limiter = GitHubRateLimiter::new(true);
    let result = limiter.update_from_response(1_000, now_unix, &response);
    assert_eq!(result, None, "should not signal retry for 200 OK");
    assert!(
        limiter.paused_until().is_some(),
        "should set preemptive pause when remaining is 0 with future reset"
    );
    assert_eq!(limiter.paused_until(), Some(121_000));
}

#[test]
fn header_lookup_takes_the_first_match_in_any_case() {
    let response = ResponseHead {
        status: 200,
        headers: vec![
            header("retry-after-x", "1"),
            header("RETRY-AFTER", "2"),
            header("retry-after", "3"),
        ],
    };
    assert_eq!(response.header("retry-after"), Some(&b"2".to_vec()));
    assert_eq!(response.header_u64("Retry-After"), Some(2));
    assert_eq!(response.header("retry"), None);
    assert_eq!(response.header_u64("x-ratelimit-reset"), None);
}

#[test]
fn header_that_is_no_number_counts_as_absent() {
    let response = ResponseHead {
        status: 429,
        headers: vec![header("retry-after", "soon"), header("x-ratelimit-remaining", "-1")],
    };
    let mut limiter = GitHubRateLimiter::new(false);
    let result = limiter.update_from_response(0, 0, &response);
    assert_eq!(result, Some(60));
    assert_eq!(limiter.remaining(), None);
}

#[test]
fn parse_u64_reads_decimal_integers() {
    assert_eq!(parse_u64(b"0"), Some(0));
    assert_eq!(parse_u64(b"42"), Some(42));
    assert_eq!(parse_u64(b"+42"), Some(42));
    assert_eq!(parse_u64(b"007"), Some(7));
    assert_eq!(parse_u64(b"18446744073709551615"), Some(u64::MAX));
    assert_eq!(parse_u64(b"18446744073709551616"), None);
    assert_eq!(parse_u64(b"99999999999999999999999"), None);
    assert_eq!(parse_u64(b""), None);
    assert_eq!(parse_u64(b"+"), None);
    assert_eq!(parse_u64(b"-1"), None);
    assert_eq!(parse_u64(b" 1"), None);
    assert_eq!(parse_u64(b"1 "), None);
    assert_eq!(parse_u64(b"1a"), None);
    assert_eq!(parse_u64(b"++1"), None);
    assert_eq!(parse_u64(&[0x31, 0xff]), None);
}

#[test]
fn parse_u64_agrees_with_the_standard_parser() {
    let samples = ["0", "1", "+5", "00012", "18446744073709551615", "18446744073709551616", "", "+", "x", "1_0", "١٢"];
    for s in samples {
        assert_eq!(parse_u64(s.as_bytes()), s.parse::<u64>().ok(), "on {:?}", s);
    }
}

#[test]
fn has_token_is_what_was_given() {
    assert!(GitHubRateLimiter::new(true).has_token());
    assert!(!GitHubRateLimiter::new(false).has_token());
}
