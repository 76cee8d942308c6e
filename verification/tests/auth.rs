use notifico::admin::require_admin;
use notifico::auth::{authorize, parse_bearer, ApiKeyInfo, AuthContext, AuthError};
use uuid::Uuid;

fn ctx(scope: &str) -> AuthContext {
    AuthContext {
        project_id: Uuid::now_v7().as_u128(),
        api_key_id: Uuid::now_v7().as_u128(),
        scope: scope.into(),
    }
}

#[test]
fn require_scope_exact_match() {
    let ctx = ctx("ingest");
    assert!(ctx.require_scope("ingest").is_ok());
    assert!(ctx.require_scope("admin").is_err());
}

#[test]
fn require_scope_admin_grants_all() {
    let ctx = ctx("admin");
    assert!(ctx.require_scope("ingest").is_ok());
    assert!(ctx.require_scope("public").is_ok());
    assert!(ctx.require_scope("admin").is_ok());
}

#[test]
fn require_scope_mismatch() {
    let ctx = ctx("public");
    assert!(ctx.require_scope("ingest").is_err());
}

#[test]
fn auth_error_status_codes() {
    assert_eq!(AuthError::MissingHeader.status_code(), 401);
    let e = AuthError::InsufficientScope { required: "ingest".into(), actual: "public".into() };
    assert_eq!(e.status_code(), 403);
}

#[test]
fn scope_error_names_both_scopes() {
    match ctx("public").require_scope("ingest") {
        Err(AuthError::InsufficientScope { required, actual }) => {
            assert_eq!(required, "ingest");
            assert_eq!(actual, "public");
        }
        _ => panic!("expected a scope error"),
    }
}

#[test]
fn every_auth_error_has_status_and_message() {
    let cases = vec![
        (AuthError::MissingHeader, 401, "Missing Authorization header"),
        (AuthError::InvalidFormat, 401, "Invalid Authorization format, expected: Bearer <key>"),
        (AuthError::InvalidKey, 401, "Invalid API key"),
        (AuthError::DisabledKey, 401, "API key is disabled"),
        (
            AuthError::InsufficientScope { required: "a".into(), actual: "b".into() },
            403,
            "Insufficient API key scope",
        ),
        (AuthError::DbError("boom".into()), 500, "Internal server error"),
    ];
    for (e, status, message) in cases {
        assert_eq!(e.status_code(), status);
        assert_eq!(e.message(), message);
    }
}

#[test]
fn bearer_header_parsing() {
    assert!(matches!(parse_bearer(None), Err(AuthError::MissingHeader)));
    assert!(matches!(parse_bearer(Some(b"Basic abc")), Err(AuthError::InvalidFormat)));
    assert!(matches!(parse_bearer(Some(b"bearer abc")), Err(AuthError::InvalidFormat)));
    assert_eq!(parse_bearer(Some(b"Bearer nk_live_abc")).unwrap(), "nk_live_abc");
    assert!(matches!(parse_bearer(Some(b"Bearer ")), Err(AuthError::InvalidFormat)));
    assert!(matches!(parse_bearer(Some(b"Bearer \xff")), Err(AuthError::InvalidFormat)));
}

#[test]
fn key_lookup_outcomes() {
    assert!(matches!(authorize(Ok(None)), Err(AuthError::InvalidKey)));
    assert!(matches!(authorize(Err("down".into())), Err(AuthError::DbError(m)) if m == "down"));
    let info = ApiKeyInfo { id: 7, project_id: 9, name: "k".into(), scope: "ingest".into(), enabled: false };
    assert!(matches!(authorize(Ok(Some(info))), Err(AuthError::DisabledKey)));
    let info = ApiKeyInfo { id: 7, project_id: 9, name: "k".into(), scope: "ingest".into(), enabled: true };
    let ctx = authorize(Ok(Some(info))).unwrap();
    assert_eq!(ctx.project_id, 9);
    assert_eq!(ctx.api_key_id, 7);
    assert_eq!(ctx.scope, "ingest");
}

#[test]
fn admin_endpoints_need_admin_scope() {
    assert!(require_admin(&ctx("admin")).is_ok());
    assert!(matches!(require_admin(&ctx("ingest")), Err(AuthError::InsufficientScope { .. })));
}
