use notifico::idempotency::make_idempotency_key;
use notifico::queue::{
    claim_statement, claimed, failure_disposition, mark_failed_statement, task_row_to_delivery_task, DeliveryTask,
    FailureDisposition, TaskRow, TaskStatus,
};
use notifico::worker::{
    any_required, delivery_verdict, logged_attempts, queue_update, resolve_credentials,
    transport_missing_error, CredentialChoice, CredentialLookup, QueueUpdate, SendOutcome,
};
use uuid::Uuid;

#[test]
fn idempotency_key_format() {
    let rid = Uuid::now_v7();
    let key = make_idempotency_key("order.confirmed", rid.as_u128(), "email", Some("abc"));
    assert!(key.contains("order.confirmed"));
    assert!(key.contains("email"));
    assert!(key.contains("abc"));

    let key_no_client = make_idempotency_key("order.confirmed", rid.as_u128(), "email", None);
    assert!(!key_no_client.contains("abc"));
    assert_eq!(key_no_client, format!("order.confirmed:{rid}:email"));
}

#[test]
fn idempotency_key_with_client_key_appends_it() {
    let key = make_idempotency_key("e", 0x10, "sms", Some("k1"));
    assert_eq!(key, "e:00000000-0000-0000-0000-000000000010:sms:k1");
}

#[test]
fn delivery_task_attempt_tracking() {
    let mut task = DeliveryTask {
        id: Uuid::now_v7().as_u128(),
        project_id: Uuid::now_v7().as_u128(),
        event_name: "test".into(),
        recipient_id: Uuid::now_v7().as_u128(),
        channel: "email".into(),
        rendered_body: serde_json::from_str("{}").unwrap(),
        contact_value: "test@test.com".into(),
        idempotency_key: None,
        attempt: 0,
        max_attempts: 5,
    };

    task.attempt += 1;
    assert_eq!(task.attempt, 1);
    assert!(task.attempt < task.max_attempts);
}

#[test]
fn backoff_is_thirty_seconds_times_four_per_attempt() {
    let secs: Vec<i64> = (1..=5)
        .map(|a| match failure_disposition(true, a, 10) {
            FailureDisposition::Requeue { backoff_secs } => backoff_secs,
            FailureDisposition::DeadLetter => panic!("expected a requeue"),
        })
        .collect();
    assert_eq!(secs, vec![30, 120, 480, 1920, 7680]);
    assert_eq!(failure_disposition(true, 0, 10), FailureDisposition::Requeue { backoff_secs: 30 });
    assert_eq!(
        failure_disposition(true, 30, 31),
        FailureDisposition::Requeue { backoff_secs: 30 * 4i64.pow(29) }
    );
}

#[test]
fn exhausted_or_permanent_failures_dead_letter() {
    assert_eq!(failure_disposition(true, 5, 5), FailureDisposition::DeadLetter);
    assert_eq!(failure_disposition(true, 6, 5), FailureDisposition::DeadLetter);
    assert_eq!(failure_disposition(false, 1, 5), FailureDisposition::DeadLetter);
    assert_eq!(failure_disposition(false, 1000, 5), FailureDisposition::DeadLetter);
}

#[test]
fn failure_statements() {
    assert_eq!(
        mark_failed_statement(FailureDisposition::Requeue { backoff_secs: 120 }),
        "UPDATE delivery_task SET status = 'pending', error_message = ?, next_retry_at = datetime('now', '+120 seconds'), updated_at = CURRENT_TIMESTAMP WHERE id = ?"
    );
    assert_eq!(
        mark_failed_statement(FailureDisposition::DeadLetter),
        "UPDATE delivery_task SET status = 'dead_letter', error_message = ?, updated_at = CURRENT_TIMESTAMP WHERE id = ?"
    );
}

fn row() -> TaskRow {
    TaskRow {
        id: 1,
        project_id: 2,
        event_name: "order.shipped".into(),
        recipient_id: 3,
        channel: "email".into(),
        contact_value: "a@b.c".into(),
        rendered_body: serde_json::from_str(r#"{"subject":"Hi"}"#).unwrap(),
        idempotency_key: Some("k".into()),
        rule_id: None,
        status: "pending".into(),
        attempt: 2,
        max_attempts: 5,
        error_message: None,
    }
}

#[test]
fn claiming_counts_an_attempt() {
    let c = claimed(row());
    assert_eq!(c.attempt, 3);
    assert_eq!(c.status, "processing");
    assert_eq!(c.id, 1);
    assert_eq!(c.max_attempts, 5);
}

#[test]
fn row_becomes_delivery_task() {
    let t = task_row_to_delivery_task(&row());
    assert_eq!(t.id, 1);
    assert_eq!(t.project_id, 2);
    assert_eq!(t.event_name, "order.shipped");
    assert_eq!(t.recipient_id, 3);
    assert_eq!(t.channel, "email");
    assert_eq!(t.contact_value, "a@b.c");
    assert_eq!(t.idempotency_key.as_deref(), Some("k"));
    assert_eq!(t.attempt, 2);
    assert_eq!(t.max_attempts, 5);
    assert_eq!(t.rendered_body["subject"], "Hi");
}

#[test]
fn task_status_names() {
    assert_eq!(TaskStatus::Pending.as_str(), "pending");
    assert_eq!(TaskStatus::Processing.as_str(), "processing");
    assert_eq!(TaskStatus::Completed.as_str(), "completed");
    assert_eq!(TaskStatus::DeadLetter.as_str(), "dead_letter");
}

#[test]
fn worker_credentials() {
    assert!(any_required(&vec![false, true]));
    assert!(!any_required(&vec![false, false]));
    assert!(!any_required(&vec![]));
    let data: serde_json::Value = serde_json::from_str(r#"{"token":"t"}"#).unwrap();
    match resolve_credentials(CredentialLookup::Found(data.clone()), true, "slack", 1) {
        Ok(CredentialChoice::Stored(d)) => assert_eq!(d, data),
        _ => panic!("expected stored credentials"),
    }
    match resolve_credentials(CredentialLookup::Missing, true, "slack", 1) {
        Err(m) => assert_eq!(
            m,
            "No credentials configured for channel 'slack' in project 00000000-0000-0000-0000-000000000001"
        ),
        _ => panic!("expected an error"),
    }
    assert!(matches!(
        resolve_credentials(CredentialLookup::Missing, false, "console", 1),
        Ok(CredentialChoice::Empty)
    ));
    assert!(matches!(resolve_credentials(CredentialLookup::NoKey, true, "x", 1), Ok(CredentialChoice::Empty)));
    assert!(matches!(
        resolve_credentials(CredentialLookup::Failed("db".into()), true, "x", 1),
        Ok(CredentialChoice::Empty)
    ));
    assert_eq!(transport_missing_error("fax"), "Transport not found for channel: fax");
}

#[test]
fn delivery_verdicts() {
    let v = delivery_verdict(SendOutcome::Delivered, 1, 5);
    assert_eq!(v.log_status, "delivered");
    assert!(v.log_error.is_none());
    assert!(v.result.is_ok());

    let v = delivery_verdict(SendOutcome::Failed { error: "busy".into(), retryable: true }, 1, 5);
    assert_eq!(v.log_status, "queued");
    assert_eq!(v.log_error.as_deref(), Some("busy"));
    assert_eq!(v.result, Err("Retryable failure: busy".to_string()));

    let v = delivery_verdict(SendOutcome::Failed { error: "busy".into(), retryable: true }, 5, 5);
    assert_eq!(v.log_status, "failed");
    assert!(v.result.is_ok());

    let v = delivery_verdict(SendOutcome::Failed { error: "bad".into(), retryable: false }, 1, 5);
    assert_eq!(v.log_status, "failed");
    assert!(v.result.is_ok());

    let v = delivery_verdict(SendOutcome::TransportError("conn".into()), 1, 5);
    assert_eq!(v.log_status, "failed");
    assert_eq!(v.log_error.as_deref(), Some("conn"));
    assert_eq!(v.result, Err("conn".to_string()));

    assert_eq!(logged_attempts(0), 1);
    assert_eq!(logged_attempts(4), 5);
}

#[test]
fn queue_updates() {
    assert!(matches!(queue_update(Ok(())), QueueUpdate::Complete));
    match queue_update(Err("x".into())) {
        QueueUpdate::Fail { reason, retryable } => {
            assert_eq!(reason, "x");
            assert!(retryable);
        }
        _ => panic!("expected a failure"),
    }
}

#[test]
fn claim_statement_lists_quoted_ids() {
    assert_eq!(
        claim_statement(&vec!["a".to_string(), "b".to_string()]),
        "UPDATE delivery_task SET status = 'processing', attempt = attempt + 1, updated_at = CURRENT_TIMESTAMP WHERE id IN ('a', 'b')"
    );
    assert_eq!(
        claim_statement(&vec!["x".to_string()]),
        "UPDATE delivery_task SET status = 'processing', attempt = attempt + 1, updated_at = CURRENT_TIMESTAMP WHERE id IN ('x')"
    );
}
