use notifico::admin::RecipientAdminRow;
use notifico::broadcast::{target_recipients, BroadcastAction, BroadcastRun};
use notifico::ingest::{IngestAction, IngestRun, RecipientInput, RuleInfo};
use serde_json::Value;

fn rule(id: u128, channel: &str, template_id: u128) -> RuleInfo {
    RuleInfo { id, channel: channel.into(), template_id }
}

fn body() -> Value {
    serde_json::from_str(r#"{"subject":"Hi {{ name }}"}"#).unwrap()
}

#[test]
fn ingest_without_rules_answers_with_error() {
    let mut run = IngestRun::new("order.paid".into(), None, "en".into(), vec![], vec![]);
    match run.start() {
        IngestAction::Finish { accepted, task_ids, errors } => {
            assert_eq!(accepted, 0);
            assert!(task_ids.is_empty());
            assert_eq!(errors, vec!["No pipeline rules configured for event: order.paid".to_string()]);
        }
        _ => panic!("expected an answer"),
    }
}

#[test]
fn ingest_fans_out_one_recipient_over_two_rules() {
    let rules = vec![rule(1, "email", 10), rule(2, "sms", 20)];
    let recipients = vec![RecipientInput {
        id: "user-1".into(),
        contacts: vec![("email".into(), "u1@example.com".into())],
    }];
    let mut run = IngestRun::new("order.paid".into(), Some("req-1".into()), "en".into(), rules, recipients);

    match run.start() {
        IngestAction::UpsertRecipient { external_id } => assert_eq!(external_id, "user-1"),
        _ => panic!("expected an upsert"),
    }
    match run.recipient_upserted(Ok(77)) {
        IngestAction::StoreContacts { recipient_id, contacts } => {
            assert_eq!(recipient_id, 77);
            assert_eq!(contacts, vec![("email".to_string(), "u1@example.com".to_string())]);
        }
        _ => panic!("expected contacts to store"),
    }
    match run.contacts_stored() {
        IngestAction::FindRecipient { external_id } => assert_eq!(external_id, "user-1"),
        _ => panic!("expected a lookup"),
    }
    match run.recipient_found(Ok(None)) {
        IngestAction::LoadContacts { recipient_id } => assert_eq!(recipient_id, 77),
        _ => panic!("expected a contacts load"),
    }
    // Stored contacts: none on sms, so the sms rule fails for want of a contact.
    match run.contacts_loaded(Ok(vec![("push".into(), "tok".into())])) {
        IngestAction::CheckIdempotency { key } => {
            assert_eq!(key, "order.paid:00000000-0000-0000-0000-00000000004d:email:req-1")
        }
        _ => panic!("expected an idempotency check"),
    }
    match run.idempotency_checked(Ok(false)) {
        IngestAction::ResolveTemplate { template_id, locale, default_locale } => {
            assert_eq!(template_id, 10);
            assert_eq!(locale, "en");
            assert_eq!(default_locale, "en");
        }
        _ => panic!("expected a template lookup"),
    }
    match run.template_resolved(Ok(Some(body()))) {
        IngestAction::RunPipeline {
            recipient_id,
            channel,
            contact_value,
            template_body,
            idempotency_key,
            max_attempts,
            ..
        } => {
            assert_eq!(recipient_id, 77);
            assert_eq!(channel, "email");
            assert_eq!(contact_value, "u1@example.com");
            assert_eq!(template_body, body());
            assert_eq!(idempotency_key.as_deref(), Some("req-1"));
            assert_eq!(max_attempts, 5);
        }
        _ => panic!("expected the pipeline"),
    }
    assert!(matches!(run.pipeline_ran(Ok(900)), IngestAction::Enqueue));
    match run.enqueued(Ok(())) {
        IngestAction::Finish { accepted, task_ids, errors } => {
            assert_eq!(accepted, 1);
            assert_eq!(task_ids, vec![900]);
            assert_eq!(errors, vec!["No contact for recipient user-1 on channel sms".to_string()]);
        }
        _ => panic!("expected the answer"),
    }
}

#[test]
fn ingest_errors_per_rule_and_recipient() {
    let rules = vec![rule(1, "email", 10)];
    let recipients = vec![
        RecipientInput { id: "a".into(), contacts: vec![] },
        RecipientInput { id: "b".into(), contacts: vec![("email".into(), "b@x.io".into())] },
    ];
    let mut run = IngestRun::new("ev".into(), None, "en".into(), rules, recipients);
    assert!(matches!(run.start(), IngestAction::UpsertRecipient { .. }));
    // The first recipient cannot be upserted; the second is tried next.
    match run.recipient_upserted(Err("db locked".into())) {
        IngestAction::UpsertRecipient { external_id } => assert_eq!(external_id, "b"),
        _ => panic!("expected the next recipient"),
    }
    assert!(matches!(run.recipient_upserted(Ok(2)), IngestAction::StoreContacts { .. }));
    assert!(matches!(run.contacts_stored(), IngestAction::FindRecipient { .. }));
    assert!(matches!(run.recipient_found(Ok(Some("de".into()))), IngestAction::LoadContacts { .. }));
    match run.contacts_loaded(Ok(vec![])) {
        IngestAction::ResolveTemplate { locale, .. } => assert_eq!(locale, "de"),
        _ => panic!("expected a template lookup"),
    }
    match run.template_resolved(Ok(None)) {
        IngestAction::Finish { accepted, task_ids, errors } => {
            assert_eq!(accepted, 0);
            assert!(task_ids.is_empty());
            assert_eq!(
                errors,
                vec![
                    "Failed to resolve recipient a: db locked".to_string(),
                    "Template not found for rule 00000000-0000-0000-0000-000000000001 (template_id: 00000000-0000-0000-0000-00000000000a, locale: de)".to_string(),
                ]
            );
        }
        _ => panic!("expected the answer"),
    }
}

#[test]
fn ingest_duplicate_is_skipped_and_failed_lookup_aborts() {
    let rules = vec![rule(1, "email", 10)];
    let recipients = vec![RecipientInput { id: "a".into(), contacts: vec![("email".into(), "a@x.io".into())] }];
    let mut run = IngestRun::new("ev".into(), Some("k".into()), "en".into(), rules, recipients);
    run.start();
    run.recipient_upserted(Ok(1));
    run.contacts_stored();
    run.recipient_found(Ok(None));
    assert!(matches!(run.contacts_loaded(Ok(vec![])), IngestAction::CheckIdempotency { .. }));
    match run.idempotency_checked(Ok(true)) {
        IngestAction::Finish { accepted, errors, .. } => {
            assert_eq!(accepted, 0);
            assert!(errors.is_empty());
        }
        _ => panic!("a duplicate is skipped silently"),
    }

    let rules = vec![rule(1, "email", 10)];
    let recipients = vec![RecipientInput { id: "a".into(), contacts: vec![] }];
    let mut run = IngestRun::new("ev".into(), None, "en".into(), rules, recipients);
    run.start();
    run.recipient_upserted(Ok(1));
    run.contacts_stored();
    match run.recipient_found(Err("connection reset".into())) {
        IngestAction::Abort { status, message } => {
            assert_eq!(status, 500);
            assert_eq!(message, "connection reset");
        }
        _ => panic!("expected an abort"),
    }
}

fn row(id: u128, ext: &str, locale: &str) -> RecipientAdminRow {
    RecipientAdminRow {
        id,
        external_id: ext.into(),
        locale: locale.into(),
        timezone: "UTC".into(),
        metadata: serde_json::from_str("{}").unwrap(),
    }
}

#[test]
fn broadcast_filter_keeps_named_recipients_in_order() {
    let rows = vec![row(1, "a", ""), row(2, "b", "fr"), row(3, "c", "")];
    let kept = target_recipients(rows, &Some(vec!["c".to_string(), "a".to_string(), "zz".to_string()]));
    let ids: Vec<u128> = kept.iter().map(|r| r.id).collect();
    assert_eq!(ids, vec![1, 3]);
    let rows = vec![row(1, "a", ""), row(2, "b", "fr")];
    assert_eq!(target_recipients(rows, &None).len(), 2);
}

#[test]
fn broadcast_sends_to_recipients_with_contacts() {
    let rules = vec![rule(5, "email", 50)];
    let mut run = BroadcastRun::new("promo".into(), "marketing".into(), "en".into(), rules, None);
    assert!(matches!(run.start(), BroadcastAction::ListRecipients));
    match run.recipients_listed(Ok(vec![row(1, "a", ""), row(2, "b", "fr")])) {
        BroadcastAction::LoadContacts { recipient_id } => assert_eq!(recipient_id, 1),
        _ => panic!("expected a contacts load"),
    }
    match run.contacts_loaded(Ok(vec![("email".into(), "a@x.io".into())])) {
        BroadcastAction::CheckPreference { recipient_id, category, channel } => {
            assert_eq!(recipient_id, 1);
            assert_eq!(category, "marketing");
            assert_eq!(channel, "email");
        }
        _ => panic!("expected a preference check"),
    }
    match run.preference_checked(Ok(false)) {
        BroadcastAction::ResolveTemplate { template_id, locale, .. } => {
            assert_eq!(template_id, 50);
            assert_eq!(locale, "en");
        }
        _ => panic!("expected a template lookup"),
    }
    assert!(matches!(run.template_resolved(Ok(Some(body()))), BroadcastAction::RunPipeline { .. }));
    assert!(matches!(run.pipeline_ran(Ok(11)), BroadcastAction::Enqueue));
    // Recipient b has no email contact: skipped silently.
    match run.enqueued(Ok(())) {
        BroadcastAction::LoadContacts { recipient_id } => assert_eq!(recipient_id, 2),
        _ => panic!("expected the next recipient"),
    }
    match run.contacts_loaded(Ok(vec![("sms".into(), "+1".into())])) {
        BroadcastAction::Finish { recipient_count, task_count, errors } => {
            assert_eq!(recipient_count, 2);
            assert_eq!(task_count, 1);
            assert!(errors.is_empty());
        }
        _ => panic!("expected the answer"),
    }
}

#[test]
fn broadcast_opt_out_and_errors() {
    let rules = vec![rule(5, "email", 50)];
    let mut run = BroadcastRun::new("promo".into(), "marketing".into(), "en".into(), rules, None);
    run.start();
    run.recipients_listed(Ok(vec![row(1, "a", "de"), row(2, "b", "")]));
    run.contacts_loaded(Ok(vec![("email".into(), "a@x.io".into())]));
    // a opted out: skipped without an error.
    match run.preference_checked(Ok(true)) {
        BroadcastAction::LoadContacts { recipient_id } => assert_eq!(recipient_id, 2),
        _ => panic!("expected the next recipient"),
    }
    match run.contacts_loaded(Err("timeout".into())) {
        BroadcastAction::Finish { recipient_count, task_count, errors } => {
            assert_eq!(recipient_count, 2);
            assert_eq!(task_count, 0);
            assert_eq!(errors, vec!["Failed to get contacts for b: timeout".to_string()]);
        }
        _ => panic!("expected the answer"),
    }
}

#[test]
fn broadcast_transactional_skips_preferences_and_reports_errors() {
    let rules = vec![rule(5, "email", 50), rule(6, "email", 60)];
    let mut run = BroadcastRun::new("reset".into(), "transactional".into(), "en".into(), rules, None);
    run.start();
    run.recipients_listed(Ok(vec![row(1, "a", "de")]));
    match run.contacts_loaded(Ok(vec![("email".into(), "a@x.io".into())])) {
        BroadcastAction::ResolveTemplate { template_id, locale, .. } => {
            assert_eq!(template_id, 50);
            assert_eq!(locale, "de");
        }
        _ => panic!("transactional events skip the preference check"),
    }
    match run.template_resolved(Ok(None)) {
        BroadcastAction::ResolveTemplate { template_id, .. } => assert_eq!(template_id, 60),
        _ => panic!("expected the second rule"),
    }
    run.template_resolved(Ok(Some(body())));
    match run.pipeline_ran(Err("bad template".into())) {
        BroadcastAction::Finish { recipient_count, task_count, errors } => {
            assert_eq!(recipient_count, 1);
            assert_eq!(task_count, 0);
            assert_eq!(
                errors,
                vec![
                    "Template not found for rule 00000000-0000-0000-0000-000000000005 locale de".to_string(),
                    "Pipeline error for a: bad template".to_string(),
                ]
            );
        }
        _ => panic!("expected the answer"),
    }
}

#[test]
fn broadcast_without_rules_or_with_failed_listing() {
    let mut run = BroadcastRun::new("x".into(), "marketing".into(), "en".into(), vec![], None);
    match run.start() {
        BroadcastAction::Finish { recipient_count, task_count, errors } => {
            assert_eq!((recipient_count, task_count), (0, 0));
            assert_eq!(errors, vec!["No pipeline rules for event: x".to_string()]);
        }
        _ => panic!("expected the answer"),
    }
    let mut run = BroadcastRun::new("x".into(), "marketing".into(), "en".into(), vec![rule(1, "email", 2)], None);
    run.start();
    match run.recipients_listed(Err("gone".into())) {
        BroadcastAction::Abort { status, message } => {
            assert_eq!(status, 500);
            assert_eq!(message, "gone");
        }
        _ => panic!("expected an abort"),
    }
}

#[test]
fn targeting_keeps_rows_whole() {
    let mut a = row(1, "a", "de");
    a.timezone = "Europe/Berlin".into();
    a.metadata = serde_json::from_str(r#"{"plan":"pro"}"#).unwrap();
    let rows = vec![a, row(2, "b", "")];
    let kept = target_recipients(rows, &Some(vec!["a".to_string()]));
    assert_eq!(kept.len(), 1);
    assert_eq!(kept[0].locale, "de");
    assert_eq!(kept[0].timezone, "Europe/Berlin");
    assert_eq!(kept[0].metadata["plan"], "pro");
}
