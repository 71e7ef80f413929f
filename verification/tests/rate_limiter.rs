use scarab_client::rate_limiter::{PluginNavRateLimiter, RateLimitError};
use std::time::Instant;

#[test]
fn test_rate_limiter_creation() {
    let limiter = PluginNavRateLimiter::new(10);
    assert_eq!(limiter.limit(), 10);
    assert_eq!(limiter.current_count(), 0);
}

#[test]
fn test_rate_limiter_default() {
    let limiter = PluginNavRateLimiter::default();
    assert_eq!(limiter.limit(), 10);
}

#[test]
fn test_rate_limiter_within_limit() {
    let mut limiter = PluginNavRateLimiter::new(5);
    for i in 0..5 {
        assert!(limiter.check_action().is_ok(), "Action {} should succeed", i);
    }
    assert_eq!(limiter.current_count(), 5);
}

#[test]
fn test_rate_limiter_exceeds_limit() {
    let mut limiter = PluginNavRateLimiter::new(3);
    for _ in 0..3 {
        assert!(limiter.check_action().is_ok());
    }
    let result = limiter.check_action();
    assert!(result.is_err());
    match result.unwrap_err() {
        RateLimitError::ExceededLimit { current, limit } => {
            assert_eq!(current, 3);
            assert_eq!(limit, 3);
        }
    }
}

// Rather than sleeping past the one-second window, these tests hand over the
// number of whole seconds that have passed.
#[test]
fn test_rate_limiter_window_reset() {
    let mut limiter = PluginNavRateLimiter::new(2);
    assert!(limiter.check_action_after(0, Instant::now()).is_ok());
    assert!(limiter.check_action_after(0, Instant::now()).is_ok());
    assert!(limiter.check_action_after(0, Instant::now()).is_err());

    assert!(limiter.check_action_after(1, Instant::now()).is_ok());
    assert_eq!(limiter.current_count(), 1);
}

#[test]
fn test_rate_limiter_reset() {
    let mut limiter = PluginNavRateLimiter::new(2);
    assert!(limiter.check_action().is_ok());
    assert!(limiter.check_action().is_ok());
    assert!(limiter.check_action().is_err());
    limiter.reset();
    assert!(limiter.check_action().is_ok());
    assert_eq!(limiter.current_count(), 1);
}

#[test]
fn test_rate_limiter_multiple_windows() {
    let mut limiter = PluginNavRateLimiter::new(2);
    assert!(limiter.check_action_after(0, Instant::now()).is_ok());
    assert!(limiter.check_action_after(0, Instant::now()).is_ok());
    assert!(limiter.check_action_after(0, Instant::now()).is_err());

    assert!(limiter.check_action_after(1, Instant::now()).is_ok());
    assert!(limiter.check_action_after(0, Instant::now()).is_ok());
    assert!(limiter.check_action_after(0, Instant::now()).is_err());
}

#[test]
fn test_rate_limit_error_display() {
    let err = RateLimitError::ExceededLimit { current: 10, limit: 5 };
    let msg = err.to_string();
    assert!(msg.contains("10"));
    assert!(msg.contains("5"));
    assert!(msg.contains("Rate limit exceeded"));
}

#[test]
fn refusal_message_is_exact() {
    let err = RateLimitError::ExceededLimit { current: 3, limit: 3 };
    assert_eq!(err.to_string(), "Rate limit exceeded: 3 actions in last second (max: 3)");
}

#[test]
fn refused_action_is_not_counted() {
    let mut limiter = PluginNavRateLimiter::new(1);
    assert!(limiter.check_action_after(0, Instant::now()).is_ok());
    for _ in 0..4 {
        assert!(limiter.check_action_after(0, Instant::now()).is_err());
        assert_eq!(limiter.current_count(), 1);
    }
}

#[test]
fn zero_limit_refuses_everything() {
    let mut limiter = PluginNavRateLimiter::new(0);
    assert_eq!(
        limiter.check_action_after(5, Instant::now()),
        Err(RateLimitError::ExceededLimit { current: 0, limit: 0 })
    );
}
