//! API-key authentication and scope checks.
use vstd::prelude::*;

use crate::codec::{header_to_str, is_visible_header_byte};
use crate::ids::{parse_uuid_field, spec_uuid_parse, uuid_field};
use crate::text::str_eq;

verus! {

/// Authenticated context extracted from an API key.
#[derive(Debug, Clone)]
pub struct AuthContext {
    pub project_id: u128,
    pub api_key_id: u128,
    pub scope: String,
}

/// Why authentication or authorization failed.
#[derive(Debug, Clone)]
pub enum AuthError {
    MissingHeader,
    InvalidFormat,
    InvalidKey,
    DisabledKey,
    InsufficientScope { required: String, actual: String },
    DbError(String),
}

/// An API key as stored: its ids, name, scope and whether it is enabled.
#[derive(Debug, Clone)]
pub struct ApiKeyInfo {
    pub id: u128,
    pub project_id: u128,
    pub name: String,
    pub scope: String,
    pub enabled: bool,
}

/// The scope that grants every other scope.
pub open spec fn admin_scope() -> Seq<char> {
    seq!['a', 'd', 'm', 'i', 'n']
}

/// Whether a key of scope `scope` may act where `required` is needed.
pub open spec fn scope_grants(scope: Seq<char>, required: Seq<char>) -> bool {
    scope == required || scope == admin_scope()
}

/// `Bearer ` as characters.
pub open spec fn bearer_prefix() -> Seq<char> {
    seq!['B', 'e', 'a', 'r', 'e', 'r', ' ']
}

/// The HTTP status an authentication error is answered with.
pub open spec fn error_status(e: AuthError) -> u16 {
    match e {
        AuthError::InsufficientScope { .. } => 403,
        AuthError::DbError(_) => 500,
        _ => 401,
    }
}

impl AuthError {
    /// The HTTP status code of the error response.
    pub fn status_code(&self) -> (code: u16)
        ensures
            code == error_status(*self),
    {
        match self {
            AuthError::MissingHeader => 401,
            AuthError::InvalidFormat => 401,
            AuthError::InvalidKey => 401,
            AuthError::DisabledKey => 401,
            AuthError::InsufficientScope { .. } => 403,
            AuthError::DbError(_) => 500,
        }
    }

    /// The body text of the error response.
    pub fn message(&self) -> (m: &'static str)
        ensures
            self is MissingHeader ==> m@ == "Missing Authorization header"@,
            self is InvalidFormat ==> m@ == "Invalid Authorization format, expected: Bearer <key>"@,
            self is InvalidKey ==> m@ == "Invalid API key"@,
            self is DisabledKey ==> m@ == "API key is disabled"@,
            self is InsufficientScope ==> m@ == "Insufficient API key scope"@,
            self is DbError ==> m@ == "Internal server error"@,
    {
        match self {
            AuthError::MissingHeader => "Missing Authorization header",
            AuthError::InvalidFormat => "Invalid Authorization format, expected: Bearer <key>",
            AuthError::InvalidKey => "Invalid API key",
            AuthError::DisabledKey => "API key is disabled",
            AuthError::InsufficientScope { .. } => "Insufficient API key scope",
            AuthError::DbError(_) => "Internal server error",
        }
    }
}

impl AuthContext {
    /// Verifies that the context has the `required` scope; the `admin` scope
    /// grants every scope.
    pub fn require_scope(&self, required: &str) -> (res: Result<(), AuthError>)
        ensures
            res is Ok <==> scope_grants(self.scope@, required@),
            res matches Err(e) ==> (e matches AuthError::InsufficientScope { required: r, actual: a }
                && r@ == required@ && a@ == self.scope@),
    {
        proof {
            reveal_strlit("admin");
        }
        assert("admin"@ =~= admin_scope());
        if str_eq(self.scope.as_str(), required) || str_eq(self.scope.as_str(), "admin") {
            Ok(())
        } else {
            Err(
                AuthError::InsufficientScope {
                    required: String::from_str(required),
                    actual: self.scope.clone(),
                },
            )
        }
    }
}

/// The key a raw `Authorization` header carries: the header must be present,
/// be visible ASCII, start with `Bearer ` and carry a non-empty key.
pub open spec fn bearer_key(header: Option<Seq<u8>>) -> Result<Seq<char>, AuthError> {
    match header {
        None => Err(AuthError::MissingHeader),
        Some(raw) => if !(forall|i: int| 0 <= i < raw.len() ==> is_visible_header_byte(raw[i])) {
            Err(AuthError::InvalidFormat)
        } else {
            let text = Seq::new(raw.len(), |i: int| raw[i] as char);
            if text.len() < 7 || text.subrange(0, 7) != bearer_prefix() || text.len() == 7 {
                Err(AuthError::InvalidFormat)
            } else {
                Ok(text.subrange(7, text.len() as int))
            }
        },
    }
}

/// Whether two authentication errors are the same variant with the same text.
pub open spec fn same_error(a: AuthError, b: AuthError) -> bool {
    match (a, b) {
        (AuthError::MissingHeader, AuthError::MissingHeader) => true,
        (AuthError::InvalidFormat, AuthError::InvalidFormat) => true,
        (AuthError::InvalidKey, AuthError::InvalidKey) => true,
        (AuthError::DisabledKey, AuthError::DisabledKey) => true,
        _ => false,
    }
}

/// Extracts the raw API key from the bytes of the `Authorization` header.
pub fn parse_bearer(header: Option<&[u8]>) -> (res: Result<String, AuthError>)
    ensures
        match (res, bearer_key(match header { Some(h) => Some(h@), None => None })) {
            (Ok(k), Ok(s)) => k@ == s,
            (Err(e), Err(f)) => same_error(e, f),
            _ => false,
        },
{
    proof {
        reveal_strlit("Bearer ");
    }
    let raw = match header {
        Some(h) => h,
        None => return Err(AuthError::MissingHeader),
    };
    let text = match header_to_str(raw) {
        Some(t) => t,
        None => return Err(AuthError::InvalidFormat),
    };
    let len = text.as_str().unicode_len();
    if len < 7 {
        return Err(AuthError::InvalidFormat);
    }
    let prefix = text.as_str().substring_char(0, 7);
    assert("Bearer "@ =~= bearer_prefix());
    if !str_eq(prefix, "Bearer ") {
        return Err(AuthError::InvalidFormat);
    }
    if len == 7 {
        return Err(AuthError::InvalidFormat);
    }
    Ok(String::from_str(text.as_str().substring_char(7, len)))
}

/// The outcome of looking a key up: the context of an enabled key; an unknown
/// key, a disabled key and a lookup failure are refused.
pub fn authorize(lookup: Result<Option<ApiKeyInfo>, String>) -> (res: Result<AuthContext, AuthError>)
    ensures
        match lookup {
            Err(m) => res matches Err(AuthError::DbError(n)) && n@ == m@,
            Ok(None) => res matches Err(AuthError::InvalidKey),
            Ok(Some(info)) => if info.enabled {
                res matches Ok(ctx) && ctx.project_id == info.project_id && ctx.api_key_id
                    == info.id && ctx.scope@ == info.scope@
            } else {
                res matches Err(AuthError::DisabledKey)
            },
        },
{
    match lookup {
        Err(m) => Err(AuthError::DbError(m)),
        Ok(None) => Err(AuthError::InvalidKey),
        Ok(Some(info)) => {
            if !info.enabled {
                Err(AuthError::DisabledKey)
            } else {
                Ok(AuthContext { project_id: info.project_id, api_key_id: info.id, scope: info.scope })
            }
        },
    }
}

/// An API key row as the database returns it: ids as text.
#[derive(Debug, Clone)]
pub struct ApiKeyRaw {
    pub id: String,
    pub project_id: String,
    pub name: String,
    pub scope: String,
    pub enabled: bool,
}

impl ApiKeyRaw {
    /// Reads the row, its ids parsed.
    pub fn into_info(self) -> (res: Result<ApiKeyInfo, String>)
        ensures
            match res {
                Ok(info) => spec_uuid_parse(self.id@) == Ok::<u128, Seq<char>>(info.id)
                    && spec_uuid_parse(self.project_id@) == Ok::<u128, Seq<char>>(info.project_id)
                    && info.name == self.name && info.scope == self.scope && info.enabled
                    == self.enabled,
                Err(e) => if uuid_field("invalid id UUID: "@, self.id@) is Err {
                    uuid_field("invalid id UUID: "@, self.id@) == Err::<u128, Seq<char>>(e@)
                } else {
                    uuid_field("invalid project_id UUID: "@, self.project_id@) == Err::<u128, Seq<char>>(e@)
                },
            },
    {
        proof {
            reveal_strlit("invalid id UUID: ");
            reveal_strlit("invalid project_id UUID: ");
        }
        let id = match parse_uuid_field("invalid id UUID: ", self.id.as_str()) {
            Ok(u) => u,
            Err(e) => return Err(e),
        };
        let project_id = match parse_uuid_field("invalid project_id UUID: ", self.project_id.as_str()) {
            Ok(u) => u,
            Err(e) => return Err(e),
        };
        Ok(ApiKeyInfo { id, project_id, name: self.name, scope: self.scope, enabled: self.enabled })
    }
}

} // verus!
