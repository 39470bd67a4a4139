use aibook::error::ErrorKind;
use aibook::limiter::{rate_limit_check, RateLimiter};

#[test]
fn first_three_allowed_fourth_denied_reset_after_window() {
    let mut limiter = RateLimiter::new(3, 60);
    let client = String::from("203.0.113.7");
    assert!(limiter.allow(&client, 0));
    assert!(limiter.allow(&client, 1));
    assert!(limiter.allow(&client, 2));
    assert!(!limiter.allow(&client, 3));
    // Denied requests are not counted: still denied within the window.
    assert!(!limiter.allow(&client, 10));
    // After the window expires the counter resets and the request passes.
    assert!(limiter.allow(&client, 61));
    assert!(limiter.allow(&client, 62));
}

#[test]
fn clients_are_limited_independently() {
    let mut limiter = RateLimiter::new(1, 60);
    let a = String::from("a");
    let b = String::from("b");
    assert!(limiter.allow(&a, 0));
    assert!(!limiter.allow(&a, 1));
    assert!(limiter.allow(&b, 1));
    assert!(!limiter.allow(&b, 2));
}

#[test]
fn first_request_of_a_window_is_always_allowed() {
    let mut limiter = RateLimiter::new(0, 60);
    let client = String::from("z");
    assert!(limiter.allow(&client, 0));
    assert!(!limiter.allow(&client, 1));
}

#[test]
fn check_is_the_original_entry_point() {
    let mut limiter = RateLimiter::new(2, 30);
    let client = String::from("10.0.0.1");
    assert!(limiter.check(&client, 100));
    assert!(limiter.check(&client, 101));
    assert!(!limiter.check(&client, 102));
}

#[test]
fn rate_limit_check_reports_the_limiter_decision() {
    let mut limiter = RateLimiter::new(1, 60);
    let client = String::from("198.51.100.2");
    assert!(rate_limit_check(&mut limiter, &client, 0));
    assert!(!rate_limit_check(&mut limiter, &client, 1));
}

#[test]
fn denied_request_surfaces_as_rate_limited_error() {
    let mut limiter = RateLimiter::new(1, 60);
    let client = String::from("c");
    assert!(limiter.guard(&client, 0).is_ok());
    let denied = limiter.guard(&client, 1);
    assert!(denied.is_err());
    assert_eq!(denied.unwrap_err().kind, ErrorKind::RateLimited);
}
