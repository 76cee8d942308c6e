use notifico::api_key::{hash_api_key, key_prefix, new_raw_api_key};
use notifico::contacts::{choose_contact, find_value};
use notifico::delivery_log::{count_logs_query, insert_log_statement, list_logs_query};
use notifico::pipeline::{assignment_changes, id_set, set_difference};
use notifico::preference::{
    new_unsubscribe_token, opted_out, respects_preferences, set_preference_statement,
    unsubscribe_target,
};
use notifico::template::{fallback_locale, resolve_template_query, set_content_statement};

#[test]
fn api_key_hash_is_sha256_hex() {
    assert_eq!(
        hash_api_key("abc"),
        "ba7816bf8f01cfea414140de5dae2223b00361a396177a9cb410ff61f20015ad"
    );
    assert_eq!(
        hash_api_key(""),
        "e3b0c44298fc1c149afbf4c8996fb92427ae41e4649b934ca495991b7852b855"
    );
    assert_eq!(hash_api_key("nk_live_x").len(), 64);
}

#[test]
fn api_key_prefix_and_shape() {
    assert_eq!(key_prefix("nk_live_0123456789abcdef"), "nk_live_01234567");
    assert_eq!(key_prefix("short"), "short");
    let k = new_raw_api_key();
    assert!(k.starts_with("nk_live_"));
    assert_eq!(k.len(), 8 + 32);
    assert!(k[8..].chars().all(|c| c.is_ascii_hexdigit() && !c.is_ascii_uppercase()));
    assert_ne!(new_raw_api_key(), k);
}

#[test]
fn contact_lookup_prefers_inline() {
    let inline = vec![("email".to_string(), "inline@x.io".to_string())];
    let stored = vec![
        ("sms".to_string(), "+100".to_string()),
        ("email".to_string(), "stored@x.io".to_string()),
        ("sms".to_string(), "+200".to_string()),
    ];
    assert_eq!(choose_contact(&inline, &stored, "email"), Some("inline@x.io".to_string()));
    assert_eq!(choose_contact(&inline, &stored, "sms"), Some("+100".to_string()));
    assert_eq!(choose_contact(&inline, &stored, "push"), None);
    assert_eq!(find_value(&stored, "sms"), Some("+100".to_string()));
    assert_eq!(find_value(&vec![], "sms"), None);
}

#[test]
fn pipeline_assignment_changes() {
    let a = id_set(&vec![1, 2, 2, 3]);
    assert_eq!(a.len(), 3);
    assert!(a.contains(&2) && !a.contains(&4));
    let mut d = set_difference(&a, &id_set(&vec![2]));
    d.sort();
    assert_eq!(d, vec![1, 3]);
    let (mut del, mut add) = assignment_changes(&vec![1, 2, 3], &vec![3, 4, 4, 5]);
    del.sort();
    add.sort();
    assert_eq!(del, vec![1, 2]);
    assert_eq!(add, vec![4, 5]);
    let (del, add) = assignment_changes(&vec![7], &vec![7]);
    assert!(del.is_empty() && add.is_empty());
}

#[test]
fn preference_rules() {
    assert!(opted_out(Some(false)));
    assert!(!opted_out(Some(true)));
    assert!(!opted_out(None));
    assert!(respects_preferences("marketing"));
    assert!(!respects_preferences("transactional"));
    assert_eq!(unsubscribe_target(None, None), ("marketing".to_string(), "email".to_string()));
    assert_eq!(
        unsubscribe_target(Some("digest"), Some("sms")),
        ("digest".to_string(), "sms".to_string())
    );
    let t = new_unsubscribe_token();
    assert!(t.starts_with("unsub_"));
    assert_eq!(t.len(), 6 + 32);
    assert!(set_preference_statement(true).starts_with("UPDATE recipient_preference"));
    assert!(set_preference_statement(false).starts_with("INSERT INTO recipient_preference"));
}

#[test]
fn template_locale_fallback() {
    assert_eq!(fallback_locale("ru", "en"), Some("en".to_string()));
    assert_eq!(fallback_locale("en", "en"), None);
    assert!(resolve_template_query().contains("tv.is_current = true"));
    assert!(set_content_statement(true).starts_with("UPDATE template_content"));
    assert!(set_content_statement(false).starts_with("INSERT INTO template_content"));
}

#[test]
fn delivery_log_queries() {
    let (sql, params) = list_logs_query(1, Some("failed"), None, 50, 100);
    assert_eq!(
        sql,
        "SELECT id, project_id, event_name, recipient_id, channel, status, error_message, attempts, created_at, delivered_at FROM delivery_log WHERE project_id = ? AND status = ? ORDER BY created_at DESC LIMIT 50 OFFSET 100"
    );
    assert_eq!(params, vec!["00000000-0000-0000-0000-000000000001".to_string(), "failed".to_string()]);
    let (sql, params) = count_logs_query(1, Some("failed"), Some("order.paid"));
    assert_eq!(
        sql,
        "SELECT COUNT(*) as cnt FROM delivery_log WHERE project_id = ? AND status = ? AND event_name = ?"
    );
    assert_eq!(params.len(), 3);
    assert_eq!(params[2], "order.paid");
    assert!(insert_log_statement("delivered").ends_with("CURRENT_TIMESTAMP)"));
    assert!(insert_log_statement("failed").ends_with("NULL)"));
}
