use notifico::rate_limit::{limit_exceeded_message, RateLimiter};
use uuid::Uuid;

const SEC: u128 = 1_000_000_000;

#[test]
fn allows_within_limit() {
    let mut limiter = RateLimiter::new(3, 60);
    let key = Uuid::now_v7().as_u128();

    assert!(limiter.check(key).is_ok());
    assert!(limiter.check(key).is_ok());
    assert!(limiter.check(key).is_ok());
}

#[test]
fn rejects_over_limit() {
    let mut limiter = RateLimiter::new(2, 60);
    let key = Uuid::now_v7().as_u128();

    assert!(limiter.check(key).is_ok());
    assert!(limiter.check(key).is_ok());
    let result = limiter.check(key);
    assert!(result.is_err());
    assert!(result.unwrap_err() >= 1);
}

#[test]
fn window_slides_at_given_times() {
    let mut limiter = RateLimiter::new(2, 60);
    assert_eq!(limiter.check_at(1, 0), Ok(()));
    assert_eq!(limiter.check_at(1, 10 * SEC), Ok(()));
    // Full: the oldest grant (at 0 s) leaves the window 60 s after it was made.
    assert_eq!(limiter.check_at(1, 20 * SEC), Err(40));
    assert_eq!(limiter.check_at(1, 59 * SEC + 1), Err(1));
    // At 60 s the first grant no longer counts.
    assert_eq!(limiter.check_at(1, 60 * SEC), Ok(()));
    assert_eq!(limiter.check_at(1, 61 * SEC), Err(9));
}

#[test]
fn keys_are_limited_separately() {
    let mut limiter = RateLimiter::new(1, 60);
    assert_eq!(limiter.check_at(1, 0), Ok(()));
    assert_eq!(limiter.check_at(2, 0), Ok(()));
    assert_eq!(limiter.check_at(1, SEC), Err(59));
    assert_eq!(limiter.check_at(2, SEC), Err(59));
}

#[test]
fn refused_requests_are_not_counted() {
    let mut limiter = RateLimiter::new(1, 10);
    assert_eq!(limiter.check_at(5, 0), Ok(()));
    for t in 1..10u128 {
        assert!(limiter.check_at(5, t * SEC).is_err());
    }
    assert_eq!(limiter.check_at(5, 10 * SEC), Ok(()));
}

#[test]
fn refusal_message() {
    assert_eq!(limit_exceeded_message(42), "Rate limit exceeded. Retry after 42s");
    assert_eq!(limit_exceeded_message(1), "Rate limit exceeded. Retry after 1s");
}
