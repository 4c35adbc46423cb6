use api_gateway::error::ApiError;
use api_gateway::rate_limiter::{
    admin_rate_limiter, api_rate_limiter, auth_rate_limiter, meter_rate_limiter, public_rate_limiter,
    trading_rate_limiter, websocket_rate_limiter, EnhancedRateLimitConfig, EnhancedRateLimiter, RateLimitConfig,
    RateLimitEntry,
};

#[test]
fn test_rate_limiter_allows_within_limit() {
    let mut limiter = EnhancedRateLimiter::new(EnhancedRateLimitConfig::new(3, 60));

    // Should allow first 3 requests
    assert!(limiter.check_rate_limit("127.0.0.1").is_ok());
    assert!(limiter.check_rate_limit("127.0.0.1").is_ok());
    assert!(limiter.check_rate_limit("127.0.0.1").is_ok());
}

#[test]
fn test_rate_limiter_blocks_exceeding_limit() {
    let mut limiter = EnhancedRateLimiter::new(EnhancedRateLimitConfig::new(2, 60));

    // First 2 should pass
    assert!(limiter.check_rate_limit("127.0.0.1").is_ok());
    assert!(limiter.check_rate_limit("127.0.0.1").is_ok());

    // Third should fail
    let result = limiter.check_rate_limit("127.0.0.1");
    assert!(result.is_err());
    if let Err(ApiError::RateLimitExceeded { retry_after_seconds }) = result {
        assert!(retry_after_seconds > 0 && retry_after_seconds <= 60);
    }
}

#[test]
fn test_rate_limiter_window_reset() {
    let mut limiter = EnhancedRateLimiter::new(EnhancedRateLimitConfig::new(2, 1)); // 1 second window
    let start = 1_700_000_000u64;

    // First 2 requests
    assert!(limiter.check_rate_limit_at("127.0.0.1", start).is_ok());
    assert!(limiter.check_rate_limit_at("127.0.0.1", start).is_ok());

    // Third should fail
    assert!(limiter.check_rate_limit_at("127.0.0.1", start).is_err());

    // Two seconds later the window has expired: should work again
    assert!(limiter.check_rate_limit_at("127.0.0.1", start + 2).is_ok());
}

#[test]
fn test_rate_limiter_per_ip() {
    let mut limiter = EnhancedRateLimiter::new(EnhancedRateLimitConfig::new(1, 60));

    // Different IPs should have independent limits
    assert!(limiter.check_rate_limit("127.0.0.1").is_ok());
    assert!(limiter.check_rate_limit("192.168.1.1").is_ok());

    // But same IP should be limited
    assert!(limiter.check_rate_limit("127.0.0.1").is_err());
}

#[test]
fn test_cleanup_expired_entries() {
    let mut limiter = EnhancedRateLimiter::new(EnhancedRateLimitConfig::new(10, 1));
    let start = 1_700_000_000u64;

    // Add some requests
    let _ = limiter.check_rate_limit_at("127.0.0.1", start);
    let _ = limiter.check_rate_limit_at("192.168.1.1", start);

    assert_eq!(limiter.tracked_ip_count(), 2);

    // Three seconds later the entries have expired
    limiter.cleanup_expired_at(start + 3);

    // Entries should be removed
    assert_eq!(limiter.tracked_ip_count(), 0);
}

#[test]
fn test_predefined_limiters() {
    // Just verify they can be created
    let _ = auth_rate_limiter();
    let _ = trading_rate_limiter();
    let _ = api_rate_limiter();
    let _ = admin_rate_limiter();
    let _ = websocket_rate_limiter();
    let _ = meter_rate_limiter();
    let _ = public_rate_limiter();
}

#[test]
fn test_auth_limiter_config() {
    let limiter = auth_rate_limiter();
    assert_eq!(limiter.config().max_requests, 5);
    assert_eq!(limiter.config().window_seconds, 60);
}

#[test]
fn test_retry_after_calculation() {
    let mut limiter = EnhancedRateLimiter::new(EnhancedRateLimitConfig::new(1, 5));

    // First request passes
    assert!(limiter.check_rate_limit("127.0.0.1").is_ok());

    // Second fails with retry_after
    if let Err(ApiError::RateLimitExceeded { retry_after_seconds }) = limiter.check_rate_limit("127.0.0.1") {
        assert!(retry_after_seconds > 0);
        assert!(retry_after_seconds <= 5);
    } else {
        panic!("Expected RateLimitExceeded error");
    }
}

#[test]
fn test_rate_limit_config_auth() {
    let config = RateLimitConfig::auth();
    let (max, window) = config.limits();
    assert_eq!(max, 5);
    assert_eq!(window, 60);
}

#[test]
fn test_rate_limit_config_trading() {
    let config = RateLimitConfig::trading();
    let (max, window) = config.limits();
    assert_eq!(max, 30);
    assert_eq!(window, 60);
}

// ---- further cases ----

#[test]
fn config_limits_and_keys_of_every_endpoint_type() {
    let cases = [
        (RateLimitConfig::auth(), 5u32, "rate_limit:auth"),
        (RateLimitConfig::trading(), 30, "rate_limit:trading"),
        (RateLimitConfig::websocket(), 5, "rate_limit:websocket"),
        (RateLimitConfig::reading(), 60, "rate_limit:reading"),
        (RateLimitConfig::api(), 100, "rate_limit:api"),
        (RateLimitConfig::admin(), 10, "rate_limit:admin"),
        (RateLimitConfig::meter(), 60, "rate_limit:meter"),
        (RateLimitConfig::public(), 200, "rate_limit:public"),
    ];
    for (config, max, key) in cases {
        assert_eq!(config.limits(), (max, 60));
        assert_eq!(config.key(), key);
    }
    assert_eq!(RateLimitConfig::api().counter_key("10.0.0.1"), "rate_limit:api:10.0.0.1");
}

#[test]
fn counter_decision_sets_expiry_on_first_request_and_refuses_over_limit() {
    let auth = RateLimitConfig::auth();
    let first = auth.counter_decision(Some(1));
    assert_eq!(first.set_expiry_seconds, Some(60));
    assert!(first.outcome.is_ok());

    let fifth = auth.counter_decision(Some(5));
    assert_eq!(fifth.set_expiry_seconds, None);
    assert!(fifth.outcome.is_ok());

    let sixth = auth.counter_decision(Some(6));
    assert!(matches!(sixth.outcome, Err(ApiError::RateLimitExceeded { retry_after_seconds: 60 })));

    // A failed increment counts as zero: allowed, no expiry.
    let failed = auth.counter_decision(None);
    assert_eq!(failed.set_expiry_seconds, None);
    assert!(failed.outcome.is_ok());
}

#[test]
fn entry_records_admitted_requests_and_computes_retry_after() {
    let config = EnhancedRateLimitConfig::new(2, 10);
    let mut entry = RateLimitEntry::new_at(100);
    assert_eq!(entry.check_and_add_at(&config, 100), Ok(()));
    assert_eq!(entry.check_and_add_at(&config, 103), Ok(()));
    assert_eq!(entry.timestamps, vec![100, 103]);
    // Oldest live request (100) leaves the window at 110.
    assert_eq!(entry.check_and_add_at(&config, 104), Err(6));
    assert_eq!(entry.timestamps, vec![100, 103]);
    // At 111 the request at 100 has expired.
    assert_eq!(entry.check_and_add_at(&config, 111), Ok(()));
    assert_eq!(entry.timestamps, vec![103, 111]);
    // More than a minute after the last cleanup, the cleanup time moves.
    assert_eq!(entry.last_cleanup, 100);
    assert_eq!(entry.check_and_add_at(&config, 200), Ok(()));
    assert_eq!(entry.last_cleanup, 200);
    assert_eq!(entry.timestamps, vec![200]);
}

#[test]
fn entry_with_zero_limit_refuses_for_a_whole_window() {
    let config = EnhancedRateLimitConfig::new(0, 30);
    let mut entry = RateLimitEntry::new_at(5);
    assert_eq!(entry.check_and_add_at(&config, 5), Err(30));
    assert!(entry.timestamps.is_empty());
}

#[test]
fn cleanup_at_discards_timestamps_outside_the_window() {
    let mut entry = RateLimitEntry::new_at(0);
    entry.timestamps = vec![10, 20, 30, 40];
    entry.cleanup_at(15, 40);
    assert_eq!(entry.timestamps, vec![30, 40]);
    assert_eq!(entry.last_cleanup, 40);
    // A window longer than the clock keeps everything after time zero.
    entry.cleanup_at(100, 40);
    assert_eq!(entry.timestamps, vec![30, 40]);
}

#[test]
fn cleanup_keeps_recently_active_clients() {
    let mut limiter = EnhancedRateLimiter::new(EnhancedRateLimitConfig::new(10, 60));
    let _ = limiter.check_rate_limit_at("a", 1000);
    let _ = limiter.check_rate_limit_at("b", 1100);
    limiter.cleanup_expired_at(1119);
    // "a" last made a request at 1000: 119 seconds ago, under two windows.
    assert_eq!(limiter.tracked_ip_count(), 2);
    limiter.cleanup_expired_at(1120);
    assert_eq!(limiter.tracked_ip_count(), 1);
}

#[test]
fn cleanup_keeps_client_whose_last_request_is_recent() {
    let mut limiter = EnhancedRateLimiter::new(EnhancedRateLimitConfig::new(10, 10));
    assert!(limiter.check_rate_limit_at("c", 0).is_ok());
    assert!(limiter.check_rate_limit_at("c", 50).is_ok());
    // The entry was last cleaned at 0, but the last request was 5 s ago.
    limiter.cleanup_expired_at(55);
    assert_eq!(limiter.tracked_ip_count(), 1);
    // Twenty seconds after the last request the client is forgotten.
    limiter.cleanup_expired_at(70);
    assert_eq!(limiter.tracked_ip_count(), 0);
}

#[test]
fn every_request_refreshes_last_access() {
    let config = EnhancedRateLimitConfig::new(1, 60);
    let mut entry = RateLimitEntry::new_at(3);
    assert_eq!(entry.last_access, 3);
    assert!(entry.check_and_add_at(&config, 10).is_ok());
    assert_eq!(entry.last_access, 10);
    assert!(entry.check_and_add_at(&config, 20).is_err());
    assert_eq!(entry.last_access, 20);
    assert_eq!(entry.last_cleanup, 3);
}

#[test]
fn recorded_timestamps_stay_sorted_and_in_window() {
    let config = EnhancedRateLimitConfig::new(3, 15);
    let mut entry = RateLimitEntry::new_at(0);
    entry.timestamps = vec![10, 20, 30];
    assert!(entry.check_and_add_at(&config, 40).is_ok());
    assert_eq!(entry.timestamps, vec![30, 40]);
    assert!(entry.check_and_add_at(&config, 41).is_ok());
    assert!(entry.check_and_add_at(&config, 42).is_err());
    assert_eq!(entry.timestamps, vec![30, 40, 41]);
}

#[test]
fn at_most_max_admitted_in_any_window() {
    let mut limiter = EnhancedRateLimiter::new(EnhancedRateLimitConfig::new(2, 10));
    let mut admitted: Vec<u64> = Vec::new();
    for t in [1u64, 2, 3, 5, 9, 11, 12, 13, 20, 21, 22, 30] {
        if limiter.check_rate_limit_at("x", t).is_ok() {
            admitted.push(t);
        }
    }
    assert_eq!(admitted, vec![1, 2, 11, 12, 21, 22]);
    for s in 0u64..40 {
        let in_window = admitted.iter().filter(|&&t| t + 10 > s && t <= s).count();
        assert!(in_window <= 2);
    }
}

#[test]
fn other_clients_never_change_an_answer() {
    let config = EnhancedRateLimitConfig::new(2, 10);
    let mut quiet = EnhancedRateLimiter::new(config);
    let mut busy = EnhancedRateLimiter::new(config);
    for t in [1u64, 2, 3, 12] {
        for other in 0..5 {
            let _ = busy.check_rate_limit_at(&format!("o{}", other), t);
        }
        assert_eq!(quiet.check_rate_limit_at("a", t).is_ok(), busy.check_rate_limit_at("a", t).is_ok());
    }
}
