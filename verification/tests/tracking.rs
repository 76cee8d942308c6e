use notifico::tracking::{
    click_event, create_tracking_token, open_event, tracking_event_values, verify_tracking_token,
};

fn test_key() -> [u8; 32] {
    [0xAB; 32]
}

#[test]
fn token_roundtrip_open() {
    let key = test_key();
    let token = create_tracking_token("delivery-123", None, &key);
    let result = verify_tracking_token(&token, &key);
    assert!(result.is_some());
    let (d, u) = result.unwrap();
    assert_eq!(d, "delivery-123");
    assert!(u.is_none());
}

#[test]
fn token_roundtrip_click() {
    let key = test_key();
    let url = "https://example.com/landing?ref=abc";
    let token = create_tracking_token("delivery-456", Some(url), &key);
    let result = verify_tracking_token(&token, &key);
    assert!(result.is_some());
    let (d, u) = result.unwrap();
    assert_eq!(d, "delivery-456");
    assert_eq!(u.unwrap(), url);
}

#[test]
fn tampered_token_fails() {
    let key = test_key();
    let token = create_tracking_token("delivery-123", None, &key);
    let tampered = format!("x{token}");
    assert!(verify_tracking_token(&tampered, &key).is_none());
}

#[test]
fn wrong_key_fails() {
    let key = test_key();
    let token = create_tracking_token("delivery-123", None, &key);
    let wrong_key = [0xCD; 32];
    assert!(verify_tracking_token(&token, &wrong_key).is_none());
}

#[test]
fn missing_dot_fails() {
    let key = test_key();
    assert!(verify_tracking_token("nodothere", &key).is_none());
}

#[test]
fn empty_token_fails() {
    let key = test_key();
    assert!(verify_tracking_token("", &key).is_none());
}

#[test]
fn token_has_one_dot_and_url_safe_parts() {
    let key = test_key();
    let token = create_tracking_token("d-1", Some("https://a.example/?q=1&r=2"), &key);
    assert_eq!(token.matches('.').count(), 1);
    assert!(!token.contains('+') && !token.contains('/') && !token.contains('='));
    // The payload is the URL-safe, unpadded base64 of the JSON object.
    let payload = token.split('.').next().unwrap();
    assert_eq!(payload, "eyJkIjoiZC0xIiwidSI6Imh0dHBzOi8vYS5leGFtcGxlLz9xPTEmcj0yIn0");
}

#[test]
fn open_records_only_verified_tokens() {
    let key = test_key();
    let token = create_tracking_token("delivery-9", None, &key);
    assert_eq!(open_event(&token, &Some(key)), Some("delivery-9".to_string()));
    assert_eq!(open_event(&token, &None), None);
    assert_eq!(open_event("garbage", &Some(key)), None);
}

#[test]
fn click_needs_key_token_and_url() {
    let key = test_key();
    let with_url = create_tracking_token("delivery-7", Some("https://example.com"), &key);
    let without_url = create_tracking_token("delivery-7", None, &key);
    assert_eq!(
        click_event(&with_url, &Some(key)),
        Some(("delivery-7".to_string(), "https://example.com".to_string()))
    );
    assert_eq!(click_event(&without_url, &Some(key)), None);
    assert_eq!(click_event(&with_url, &None), None);
    assert_eq!(click_event("invalid-token", &Some(key)), None);
}

#[test]
fn tracking_event_values_fill_missing_url() {
    let v = tracking_event_values(1, "log-1", "open", None);
    assert_eq!(
        v,
        vec![
            "00000000-0000-0000-0000-000000000001".to_string(),
            "log-1".to_string(),
            "open".to_string(),
            String::new()
        ]
    );
    let v = tracking_event_values(0, "log-2", "click", Some("https://x.example"));
    assert_eq!(v[3], "https://x.example");
}

#[test]
fn token_signature_is_43_url_safe_characters() {
    let key = [0xABu8; 32];
    for url in [None, Some("https://example.com/a?b=c")] {
        let token = notifico::tracking::create_tracking_token("log-1", url, &key);
        let (_, signature) = token.split_once('.').unwrap();
        assert_eq!(signature.len(), 43);
        assert!(signature.chars().all(|c| c.is_ascii_alphanumeric() || c == '-' || c == '_'));
    }
}

#[test]
fn open_pixel_is_the_same_for_every_token() {
    let key = Some([0xABu8; 32]);
    let token = create_tracking_token("log-7", None, &[0xABu8; 32]);
    let good = notifico::tracking::open_response(&token, &key);
    let bad = notifico::tracking::open_response("invalid_token", &key);
    let unkeyed = notifico::tracking::open_response(&token, &None);
    for r in [&good, &bad, &unkeyed] {
        assert_eq!(r.status, 200);
        assert_eq!(r.content_type, "image/gif");
        assert_eq!(r.body.len(), 43);
        assert_eq!(&r.body[..6], b"GIF89a");
    }
    assert_eq!(good.body, bad.body);
    assert_eq!(good.record.as_deref(), Some("log-7"));
    assert_eq!(bad.record, None);
    assert_eq!(unkeyed.record, None);
}
