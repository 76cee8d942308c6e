use notifico::admission::{admit_broadcast, admit_ingest, event_found, Refusal};
use notifico::auth::{AuthContext, AuthError};
use notifico::rate_limit::RateLimiter;
use notifico::template::{content_write, current_version};
use notifico::worker::{after_claim, claim_batch_size, poll_interval_secs, PollStep};

fn ctx(scope: &str) -> AuthContext {
    AuthContext { project_id: 1, api_key_id: 7, scope: scope.to_string() }
}

#[test]
fn ingest_needs_the_ingest_scope() {
    assert!(admit_ingest(&ctx("ingest")).is_ok());
    assert!(admit_ingest(&ctx("admin")).is_ok());
    let refused = admit_ingest(&ctx("read")).unwrap_err();
    assert_eq!(refused.status(), 403);
    assert!(refused.message().is_none());
    match refused {
        Refusal::Forbidden(AuthError::InsufficientScope { required, actual }) => {
            assert_eq!(required, "ingest");
            assert_eq!(actual, "read");
        }
        other => panic!("unexpected refusal {other:?}"),
    }
}

#[test]
fn broadcast_checks_scope_before_rate() {
    let mut limiter = RateLimiter::new(1, 60);
    // A key without the scope is refused without spending its rate.
    assert_eq!(admit_broadcast(&ctx("read"), &mut limiter).unwrap_err().status(), 403);
    assert!(admit_broadcast(&ctx("ingest"), &mut limiter).is_ok());
    let refused = admit_broadcast(&ctx("ingest"), &mut limiter).unwrap_err();
    assert_eq!(refused.status(), 429);
    match &refused {
        Refusal::RateLimited(n) => {
            assert!(*n >= 1 && *n <= 60);
            assert_eq!(refused.message().unwrap(), format!("Rate limit exceeded. Retry after {n}s"));
        }
        other => panic!("unexpected refusal {other:?}"),
    }
}

#[test]
fn unknown_event_is_not_found() {
    assert_eq!(event_found("signup", Some(5u32)).unwrap(), 5);
    let refused = event_found::<u32>("signup", None).unwrap_err();
    assert_eq!(refused.status(), 404);
    assert_eq!(refused.message().unwrap(), "Event not found: signup");
}

#[test]
fn template_content_write() {
    assert_eq!(current_version(Some("v1".into())).unwrap(), "v1");
    assert_eq!(current_version(None).unwrap_err(), "No current version found");
    let (sql, params) = content_write("v1".into(), Some("c9".into()), "n1".into(), "en".into(), "{}".into());
    assert_eq!(sql, "UPDATE template_content SET body = ?, updated_at = CURRENT_TIMESTAMP WHERE id = ?");
    assert_eq!(params, vec!["{}".to_string(), "c9".to_string()]);
    let (sql, params) = content_write("v1".into(), None, "n1".into(), "en".into(), "{}".into());
    assert_eq!(sql, "INSERT INTO template_content (id, template_version_id, locale, body) VALUES (?, ?, ?, ?)");
    assert_eq!(params, vec!["n1".to_string(), "v1".to_string(), "en".to_string(), "{}".to_string()]);
}

#[test]
fn worker_polls_in_batches() {
    assert_eq!(claim_batch_size(), 10);
    assert_eq!(poll_interval_secs(), 2);
    assert_eq!(after_claim(Ok(3)), PollStep::Process);
    assert_eq!(after_claim(Ok(0)), PollStep::Wait);
    assert_eq!(after_claim(Err(())), PollStep::Wait);
}
