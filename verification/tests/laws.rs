use notifico::idempotency::make_idempotency_key;
use notifico::migration::{migrations, pending_migrations};
use notifico::pipeline::assignment_changes;
use notifico::queue::{failure_disposition, FailureDisposition};
use notifico::rate_limit::RateLimiter;

#[test]
fn law_client_key_extends_base_key() {
    let base = make_idempotency_key("ev", 5, "sms", None);
    let with = make_idempotency_key("ev", 5, "sms", Some("abc"));
    assert_eq!(with, format!("{base}:abc"));
}

#[test]
fn law_backoff_grows_fourfold() {
    for a in 1..10 {
        let d1 = failure_disposition(true, a, 100);
        let d2 = failure_disposition(true, a + 1, 100);
        match (d1, d2) {
            (FailureDisposition::Requeue { backoff_secs: x }, FailureDisposition::Requeue { backoff_secs: y }) => {
                assert_eq!(y, 4 * x)
            }
            _ => panic!("expected requeues"),
        }
    }
}

#[test]
fn law_assignment_reaches_request() {
    let current = vec![1u128, 2, 3];
    let requested = vec![3u128, 4];
    let (delete, add) = assignment_changes(&current, &requested);
    let mut after: Vec<u128> = current.into_iter().filter(|x| !delete.contains(x)).collect();
    after.extend(add);
    after.sort();
    assert_eq!(after, vec![3, 4]);
}

#[test]
fn law_sliding_window_never_exceeds_limit() {
    let mut limiter = RateLimiter::new(3, 1);
    let mut granted_in_window = 0;
    for t in 0..10u128 {
        if limiter.check_at(9, t * 100_000_000).is_ok() {
            granted_in_window += 1;
        }
    }
    assert_eq!(granted_in_window, 3);
}

#[test]
fn law_second_run_applies_nothing() {
    let plan = migrations();
    let first = pending_migrations(&plan, &vec![]);
    let applied: Vec<String> = first.iter().map(|&i| plan[i].name.to_string()).collect();
    assert!(pending_migrations(&plan, &applied).is_empty());
}

#[test]
fn law_successive_grants_lie_a_window_apart() {
    let mut limiter = RateLimiter::new(3, 1);
    let mut granted: Vec<u128> = Vec::new();
    for step in 0..60u128 {
        let now = step * 70_000_000;
        if limiter.check_at(4, now).is_ok() {
            granted.push(now);
        }
    }
    assert!(granted.len() > 3);
    for i in 0..granted.len() - 3 {
        assert!(granted[i + 3] - granted[i] >= 1_000_000_000);
    }
}
