use share_anything::rate_limiter::{
    bucket_for, denied_message, extract_ip, rate_limit_key, Bucket, CliRateLimiter, RateLimitStatus, RateLimiter,
};

const SECOND: u128 = 1_000_000_000;

#[test]
fn fifty_requests_a_minute_pass_and_the_next_is_refused() {
    let mut rl = RateLimiter::new();
    for i in 0..50u128 {
        assert!(rl.check_rate_limit_at("10.0.0.1", i * SECOND).is_ok());
    }
    let err = rl.check_rate_limit_at("10.0.0.1", 55 * SECOND).unwrap_err();
    assert_eq!(err, "Rate limit exceeded. You can make up to 50 requests per minute");
}

#[test]
fn the_window_starts_over_after_a_minute() {
    let mut rl = RateLimiter::new();
    for _ in 0..50 {
        assert!(rl.check_rate_limit_at("10.0.0.2", 0).is_ok());
    }
    assert!(rl.check_rate_limit_at("10.0.0.2", 60 * SECOND).is_err());
    assert!(rl.check_rate_limit_at("10.0.0.2", 60 * SECOND + 1).is_ok());
}

#[test]
fn one_client_does_not_use_up_another_clients_budget() {
    let mut rl = RateLimiter::new();
    for _ in 0..60 {
        let _ = rl.check_rate_limit_at("10.0.0.3", 0);
    }
    assert!(rl.check_rate_limit_at("10.0.0.3", 1).is_err());
    assert!(rl.check_rate_limit_at("10.0.0.4", 1).is_ok());
}

#[test]
fn eleven_failures_block_the_ip_for_ten_minutes() {
    let mut rl = RateLimiter::new();
    for _ in 0..10 {
        rl.record_failed_request_at("10.0.0.5", 0);
    }
    assert!(rl.check_rate_limit_at("10.0.0.5", 1).is_ok());
    rl.record_failed_request_at("10.0.0.5", 2);
    let err = rl.check_rate_limit_at("10.0.0.5", 3).unwrap_err();
    assert_eq!(
        err,
        "비정상적인 활동으로 인해 사용자의 IP가 일시적으로 차단되었습니다. 나중에 다시 시도해 주세요"
    );
    assert!(rl.check_rate_limit_at("10.0.0.5", 2 + 600 * SECOND).is_ok());
}

#[test]
fn cleanup_forgets_old_windows() {
    let mut rl = RateLimiter::new();
    for _ in 0..50 {
        let _ = rl.check_rate_limit_at("10.0.0.6", 0);
    }
    rl.cleanup_at(3600 * SECOND);
    assert!(rl.check_rate_limit_at("10.0.0.6", 3600 * SECOND).is_ok());
}

#[test]
fn buckets_have_their_hourly_budgets() {
    assert_eq!(Bucket::Read.limit(), 500);
    assert_eq!(Bucket::Upload.limit(), 80);
    assert_eq!(Bucket::Download.limit(), 150);
}

#[test]
fn upload_bucket_allows_eighty_an_hour() {
    let mut cl = CliRateLimiter::new();
    let first = cl.check_at("key-1", Bucket::Upload, 0, 1_000).unwrap();
    assert_eq!(first.limit, 80);
    assert_eq!(first.remaining, 79);
    assert_eq!(first.reset_unix, 4_600);
    for _ in 1..80 {
        assert!(cl.check_at("key-1", Bucket::Upload, 0, 1_000).is_ok());
    }
    let refused = cl.check_at("key-1", Bucket::Upload, 10 * SECOND, 1_010).unwrap_err();
    assert_eq!(refused.remaining, 0);
    assert_eq!(refused.reset_unix, 1_010 + 3_590);
    assert!(cl.check_at("key-1", Bucket::Read, 10 * SECOND, 1_010).is_ok());
}

#[test]
fn a_new_window_starts_an_hour_after_the_last_began() {
    let mut cl = CliRateLimiter::new();
    for _ in 0..80 {
        assert!(cl.check_at("key-2", Bucket::Upload, 0, 1_000).is_ok());
    }
    assert!(cl.check_at("key-2", Bucket::Upload, 3_600 * SECOND, 4_600).is_err());
    let fresh = cl.check_at("key-2", Bucket::Upload, 3_601 * SECOND, 4_601).unwrap();
    assert_eq!(fresh.remaining, 79);
    assert_eq!(fresh.reset_unix, 4_601 + 3_600);
    let second = cl.check_at("key-2", Bucket::Upload, 3_700 * SECOND, 4_700).unwrap();
    assert_eq!(second.remaining, 78);
}

#[test]
fn a_cleanup_between_windows_keeps_the_count_right() {
    let mut cl = CliRateLimiter::new();
    for _ in 0..80 {
        assert!(cl.check_at("key-3", Bucket::Upload, 0, 1_000).is_ok());
    }
    cl.cleanup_at(1_800 * SECOND);
    assert!(cl.check_at("key-3", Bucket::Upload, 1_800 * SECOND, 2_800).is_err());
    cl.cleanup_at(7_200 * SECOND);
    let s = cl.check_at("key-3", Bucket::Upload, 7_300 * SECOND, 8_300).unwrap();
    assert_eq!(s.remaining, 79);
}

#[test]
fn requests_are_classed_by_route() {
    assert!(bucket_for("POST", "/v1/uploads") == Bucket::Upload);
    assert!(bucket_for("POST", "/v1/uploads/multipart/init") == Bucket::Upload);
    assert!(bucket_for("GET", "/v1/shares/123456/download") == Bucket::Download);
    assert!(bucket_for("GET", "/v1/shares/123456") == Bucket::Read);
    assert!(bucket_for("GET", "/v1/uploads") == Bucket::Read);
}

#[test]
fn client_address_comes_from_the_proxy_headers() {
    assert_eq!(extract_ip(Some(" 1.1.1.1 , 2.2.2.2"), Some("3.3.3.3")), "1.1.1.1");
    assert_eq!(extract_ip(None, Some("3.3.3.3")), "3.3.3.3");
    assert_eq!(extract_ip(None, None), "unknown");
    assert_eq!(rate_limit_key(Some("user-7"), Some("1.1.1.1"), None), "user-7");
    assert_eq!(rate_limit_key(None, Some("1.1.1.1"), None), "1.1.1.1");
}

#[test]
fn refusal_message_names_the_budget() {
    let s = RateLimitStatus { limit: 80, remaining: 0, reset_unix: 0 };
    assert_eq!(denied_message(&s), "Rate limit exceeded. Maximum 80 requests per hour");
}

#[test]
fn live_clock_checks_count_requests() {
    let mut rl = RateLimiter::new();
    for _ in 0..50 {
        assert!(rl.check_rate_limit("10.0.0.9").is_ok());
    }
    assert!(rl.check_rate_limit("10.0.0.9").is_err());
    assert!(rl.check_rate_limit("10.0.0.10").is_ok());
}

#[test]
fn live_clock_failures_block_the_ip() {
    let mut rl = RateLimiter::new();
    for _ in 0..11 {
        rl.record_failed_request("10.0.0.11");
    }
    assert!(rl.check_rate_limit("10.0.0.11").is_err());
    rl.cleanup();
    assert!(rl.check_rate_limit("10.0.0.11").is_err());
    let mut cl = CliRateLimiter::new();
    assert!(cl.check("key-1", Bucket::Read).is_ok());
    cl.cleanup();
}
