use notifico::admin::{EventRaw as AdminEventRaw, ProjectRaw, RecipientAdminRaw, RuleRaw, TemplateRaw};
use notifico::contacts::{ContactRaw, RecipientRaw};
use notifico::middleware::{enabled_flag, list_statement, MiddlewareRaw};
use notifico::auth::ApiKeyRaw;
use notifico::credential::{seal_credential, CredentialRaw};
use notifico::delivery_log::DeliveryLogRaw;
use notifico::queue::TaskRaw;
use notifico::preference::{unsubscribe_answer, UnsubscribeRaw};
use notifico::template::{EventRaw, PipelineRuleRaw, ResolvedTemplateRaw};
use uuid::Uuid;

const ID1: &str = "0191e6a0-1b2c-7d3e-8f40-123456789abc";
const ID2: &str = "0191e6a0-1b2c-7d3e-8f40-123456789abd";
const ID3: &str = "0191e6a0-1b2c-7d3e-8f40-123456789abe";

fn id(s: &str) -> u128 {
    Uuid::parse_str(s).unwrap().as_u128()
}

fn task_raw() -> TaskRaw {
    TaskRaw {
        id: ID1.into(),
        project_id: ID2.into(),
        event_name: "order.paid".into(),
        recipient_id: ID3.into(),
        channel: "email".into(),
        contact_value: "a@b.c".into(),
        rendered_body: r#"{"subject":"Hi"}"#.into(),
        idempotency_key: None,
        rule_id: None,
        status: "pending".into(),
        attempt: 0,
        max_attempts: 5,
        error_message: None,
    }
}

#[test]
fn task_row_reads_ids_and_body() {
    let row = task_raw().into_row().unwrap();
    assert_eq!(row.id, id(ID1));
    assert_eq!(row.project_id, id(ID2));
    assert_eq!(row.recipient_id, id(ID3));
    assert_eq!(row.rendered_body["subject"], "Hi");
    assert_eq!(row.rule_id, None);
    // The simple form parses too.
    let mut raw = task_raw();
    raw.rule_id = Some(Uuid::parse_str(ID1).unwrap().simple().to_string());
    assert_eq!(raw.into_row().unwrap().rule_id, Some(id(ID1)));
}

#[test]
fn task_row_errors_name_the_field() {
    let mut raw = task_raw();
    raw.project_id = "nope".into();
    let e = raw.into_row().unwrap_err();
    assert!(e.starts_with("invalid project_id UUID: "), "{e}");
    let mut raw = task_raw();
    raw.rendered_body = "{".into();
    assert!(raw.into_row().unwrap_err().starts_with("invalid rendered_body JSON: "));
    let mut raw = task_raw();
    raw.rule_id = Some("x".into());
    assert!(raw.into_row().unwrap_err().starts_with("invalid rule_id UUID: "));
    let mut raw = task_raw();
    raw.id = "".into();
    raw.rendered_body = "{".into();
    assert!(raw.into_row().unwrap_err().starts_with("invalid id UUID: "));
}

#[test]
fn delivery_log_row() {
    let raw = DeliveryLogRaw {
        id: ID1.into(),
        project_id: ID2.into(),
        event_name: "e".into(),
        recipient_id: ID3.into(),
        channel: "sms".into(),
        status: "delivered".into(),
        error_message: None,
        attempts: 1,
        created_at: "2026-03-03 10:00:00".into(),
        delivered_at: Some("2026-03-03 10:00:01".into()),
    };
    let row = raw.clone().into_row().unwrap();
    assert_eq!((row.id, row.project_id, row.recipient_id), (id(ID1), id(ID2), id(ID3)));
    assert_eq!(row.attempts, 1);
    let mut bad = raw;
    bad.recipient_id = "zz".into();
    assert!(bad.into_row().unwrap_err().starts_with("invalid UUID: "));
}

#[test]
fn api_key_and_rule_rows() {
    let info = ApiKeyRaw {
        id: ID1.into(),
        project_id: ID2.into(),
        name: "ci".into(),
        scope: "ingest".into(),
        enabled: true,
    }
    .into_info()
    .unwrap();
    assert_eq!((info.id, info.project_id), (id(ID1), id(ID2)));
    assert_eq!(info.scope, "ingest");
    let e = ApiKeyRaw {
        id: ID1.into(),
        project_id: "bad".into(),
        name: "ci".into(),
        scope: "ingest".into(),
        enabled: true,
    }
    .into_info()
    .unwrap_err();
    assert!(e.starts_with("invalid project_id UUID: "));

    let rule = PipelineRuleRaw {
        id: ID1.into(),
        channel: "email".into(),
        template_id: ID2.into(),
        enabled: true,
        conditions: None,
        priority: 3,
    }
    .into_row()
    .unwrap();
    assert_eq!((rule.id, rule.template_id, rule.priority), (id(ID1), id(ID2), 3));
    let e = PipelineRuleRaw {
        id: "x".into(),
        channel: "email".into(),
        template_id: ID2.into(),
        enabled: true,
        conditions: None,
        priority: 3,
    }
    .into_row()
    .unwrap_err();
    assert!(e.starts_with("invalid pipeline_rule id UUID: "));

    let t = ResolvedTemplateRaw {
        template_id: ID3.into(),
        template_name: "welcome".into(),
        channel: "email".into(),
        version: 2,
        locale: "en".into(),
        body: serde_json::from_str(r#"{"text":"Hello"}"#).unwrap(),
    }
    .into_resolved()
    .unwrap();
    assert_eq!(t.template_id, id(ID3));
    assert_eq!(t.body["text"], "Hello");
}

#[test]
fn recipient_rows_tolerate_bad_metadata() {
    let row = RecipientAdminRaw {
        id: ID1.into(),
        external_id: "user-1".into(),
        locale: "en".into(),
        timezone: "UTC".into(),
        metadata: "not json".into(),
    }
    .into_row()
    .unwrap();
    assert_eq!(row.id, id(ID1));
    assert_eq!(row.metadata, serde_json::Value::Object(serde_json::Map::new()));
    let row = RecipientAdminRaw {
        id: ID1.into(),
        external_id: "user-1".into(),
        locale: "en".into(),
        timezone: "UTC".into(),
        metadata: r#"{"plan":"pro"}"#.into(),
    }
    .into_row()
    .unwrap();
    assert_eq!(row.metadata["plan"], "pro");
}

#[test]
fn credential_rows_open_their_data() {
    let key = [7u8; 32];
    let sealed = seal_credential(br#"{"token":"abc"}"#, &key).unwrap();
    let raw = CredentialRaw {
        id: ID1.into(),
        project_id: ID2.into(),
        name: "Slack".into(),
        channel: "slack".into(),
        encrypted_data: sealed.clone(),
        enabled: true,
    };
    let row = raw.clone().into_row(&key).unwrap();
    assert_eq!(row.data["token"], "abc");
    assert_eq!(row.id, id(ID1));
    assert_eq!(raw.clone().into_row(&[8u8; 32]).unwrap_err(), "Decryption error: aead::Error");
    let not_json = seal_credential(b"plain", &key).unwrap();
    let mut raw2 = raw;
    raw2.encrypted_data = not_json;
    assert!(raw2.into_row(&key).unwrap_err().starts_with("JSON deserialize error: "));
}

#[test]
fn event_rows() {
    let ev = EventRaw { id: ID1.into(), project_id: ID2.into(), name: "order.paid".into(), category: "transactional".into() }
        .into_row()
        .unwrap();
    assert_eq!((ev.id, ev.project_id), (id(ID1), id(ID2)));
    assert_eq!(ev.category, "transactional");
    let e = EventRaw { id: "x".into(), project_id: ID2.into(), name: "n".into(), category: "c".into() }
        .into_row()
        .unwrap_err();
    assert!(e.starts_with("invalid event id UUID: "));
}

#[test]
fn unsubscribe_rows_and_answers() {
    let info = UnsubscribeRaw {
        id: ID1.into(),
        recipient_id: ID2.into(),
        event_id: Some(ID3.into()),
        category: Some("digest".into()),
        channel: None,
    }
    .into_info()
    .unwrap();
    assert_eq!((info.id, info.recipient_id, info.event_id), (id(ID1), id(ID2), Some(id(ID3))));
    assert_eq!(info.category.as_deref(), Some("digest"));
    let e = UnsubscribeRaw { id: "bad".into(), recipient_id: ID2.into(), event_id: Some("bad".into()), category: None, channel: None }
        .into_info()
        .unwrap_err();
    assert!(e.starts_with("invalid event UUID: "));
    assert_eq!(unsubscribe_answer(true), (200, "You have been unsubscribed."));
    assert_eq!(unsubscribe_answer(false), (404, "Invalid or expired unsubscribe link."));
}

#[test]
fn admin_rows() {
    let p = ProjectRaw { id: ID1.into(), name: "Acme".into(), default_locale: "en".into(), settings: "{}".into() }
        .into_row()
        .unwrap();
    assert_eq!(p.id, id(ID1));
    assert_eq!(p.settings, serde_json::Value::Object(serde_json::Map::new()));
    let p = ProjectRaw { id: ID1.into(), name: "Acme".into(), default_locale: "en".into(), settings: "oops".into() }
        .into_row()
        .unwrap();
    assert_eq!(p.settings, serde_json::Value::Object(serde_json::Map::new()));
    let e = AdminEventRaw {
        id: ID1.into(),
        project_id: ID2.into(),
        name: "a".into(),
        category: "b".into(),
        description: "c".into(),
    }
    .into_row()
    .unwrap();
    assert_eq!((e.id, e.project_id, e.description.as_str()), (id(ID1), id(ID2), "c"));
    let r = RuleRaw {
        id: ID1.into(),
        event_id: ID2.into(),
        channel: "sms".into(),
        template_id: "bad".into(),
        enabled: true,
        priority: 0,
    }
    .into_row()
    .unwrap_err();
    assert!(r.starts_with("invalid UUID: "));
    let t = TemplateRaw { id: ID3.into(), project_id: ID1.into(), name: "t".into(), channel: "email".into() }
        .into_row()
        .unwrap();
    assert_eq!((t.id, t.project_id), (id(ID3), id(ID1)));
}

#[test]
fn recipient_and_contact_rows() {
    let r = RecipientRaw {
        id: ID1.into(),
        project_id: ID2.into(),
        external_id: "u".into(),
        locale: "en".into(),
        timezone: "UTC".into(),
        metadata: serde_json::from_str("{}").unwrap(),
    }
    .into_row()
    .unwrap();
    assert_eq!((r.id, r.project_id), (id(ID1), id(ID2)));
    let e = RecipientRaw {
        id: ID1.into(),
        project_id: "p".into(),
        external_id: "u".into(),
        locale: "en".into(),
        timezone: "UTC".into(),
        metadata: serde_json::from_str("{}").unwrap(),
    }
    .into_row()
    .unwrap_err();
    assert!(e.starts_with("invalid project_id UUID: "));
    let c = ContactRaw { id: ID3.into(), channel: "email".into(), value: "a@b.c".into(), verified: true }
        .into_row()
        .unwrap();
    assert_eq!(c.id, id(ID3));
    assert!(c.verified);
}

#[test]
fn middleware_rows() {
    let m = MiddlewareRaw {
        id: ID1.into(),
        rule_id: ID2.into(),
        middleware_name: "utm_params".into(),
        config: r#"{"source":"mail"}"#.into(),
        priority: 2,
        enabled: 1,
    }
    .into_row()
    .unwrap();
    assert!(m.enabled);
    assert_eq!(m.config_value().unwrap()["source"], "mail");
    let m = MiddlewareRaw {
        id: ID1.into(),
        rule_id: ID2.into(),
        middleware_name: "x".into(),
        config: "{".into(),
        priority: 0,
        enabled: 0,
    }
    .into_row()
    .unwrap();
    assert!(!m.enabled);
    assert!(m.config_value().is_err());
    assert_eq!(enabled_flag(true), 1);
    assert_eq!(enabled_flag(false), 0);
    assert!(list_statement(true).contains("AND enabled = 1"));
    assert!(!list_statement(false).contains("enabled = 1"));
}

#[test]
fn claimed_task_carries_its_body_to_the_worker() {
    let row = task_raw().into_row().unwrap();
    let expected: serde_json::Value = serde_json::from_str(r#"{"subject":"Hi"}"#).unwrap();
    assert_eq!(row.rendered_body, expected);
    let row = notifico::queue::claimed(row);
    assert_eq!(row.rendered_body, expected);
    let task = notifico::queue::task_row_to_delivery_task(&row);
    assert_eq!(task.rendered_body, expected);
}
