//! Start-up decisions of the server: which parts run, where it listens, the
//! encryption key and the health answer.
use vstd::prelude::*;
use vstd::string::StringSliceAdditionalSpecFns;

use crate::codec::{hex_decode, hex_decoded};
use crate::config::ServerMode;
use crate::text::{decimal, push_decimal};

verus! {

/// Whether the delivery worker runs in `mode`.
pub fn runs_worker(mode: ServerMode) -> (b: bool)
    ensures
        b == (mode == ServerMode::All || mode == ServerMode::Worker),
{
    match mode {
        ServerMode::All => true,
        ServerMode::Api => false,
        ServerMode::Worker => true,
    }
}

/// Whether the HTTP API runs in `mode`.
pub fn runs_api(mode: ServerMode) -> (b: bool)
    ensures
        b == (mode == ServerMode::All || mode == ServerMode::Api),
{
    match mode {
        ServerMode::All => true,
        ServerMode::Api => true,
        ServerMode::Worker => false,
    }
}

/// The address the API binds: `host:port`.
pub fn bind_address(host: &str, port: u16) -> (a: String)
    ensures
        a@ == host@ + ":"@ + decimal(port as nat),
{
    let mut a = String::from_str(host);
    a.append(":");
    push_decimal(&mut a, port as u64);
    a
}

/// Why the configured encryption key was refused.
#[derive(Debug, Clone, Copy, PartialEq, Eq, Structural)]
pub enum KeyError {
    /// The key is not valid hex.
    InvalidHex,
    /// The key does not decode to exactly 32 bytes.
    WrongLength,
}

impl KeyError {
    /// The message the server stops with.
    pub fn message(&self) -> (m: &'static str)
        ensures
            *self == KeyError::InvalidHex ==> m@ == "NOTIFICO_AUTH_ENCRYPTION_KEY must be valid hex"@,
            *self == KeyError::WrongLength ==> m@ == "NOTIFICO_AUTH_ENCRYPTION_KEY must be exactly 32 bytes (64 hex chars)"@,
    {
        match self {
            KeyError::InvalidHex => "NOTIFICO_AUTH_ENCRYPTION_KEY must be valid hex",
            KeyError::WrongLength => "NOTIFICO_AUTH_ENCRYPTION_KEY must be exactly 32 bytes (64 hex chars)",
        }
    }
}

/// Parses the hex-encoded 32-byte encryption key.
pub fn parse_encryption_key(hex_key: &str) -> (res: Result<[u8; 32], KeyError>)
    ensures
        hex_decoded(hex_key.spec_bytes()) is None ==> res == Err::<[u8; 32], KeyError>(
            KeyError::InvalidHex,
        ),
        hex_decoded(hex_key.spec_bytes()) matches Some(b) ==> (if b.len() == 32 {
            res matches Ok(k) && k@ == b
        } else {
            res == Err::<[u8; 32], KeyError>(KeyError::WrongLength)
        }),
{
    let bytes = match hex_decode(hex_key.as_bytes()) {
        Some(b) => b,
        None => return Err(KeyError::InvalidHex),
    };
    if bytes.len() != 32 {
        return Err(KeyError::WrongLength);
    }
    let mut key: [u8; 32] = [0u8; 32];
    let mut i: usize = 0;
    while i < 32
        invariant
            i <= 32,
            bytes@.len() == 32,
            key@.len() == 32,
            forall|j: int| 0 <= j < i ==> key@[j] == bytes@[j],
        decreases 32 - i,
    {
        key[i] = bytes[i];
        i = i + 1;
    }
    assert(key@ =~= bytes@);
    Ok(key)
}

/// The health answer: 200 with `ok`/`connected` when the database answers,
/// 503 with `degraded`/`unreachable` when it does not.
pub fn health_status(db_reachable: bool) -> (h: (u16, &'static str, &'static str))
    ensures
        db_reachable ==> h.0 == 200 && h.1@ == "ok"@ && h.2@ == "connected"@,
        !db_reachable ==> h.0 == 503 && h.1@ == "degraded"@ && h.2@ == "unreachable"@,
{
    if db_reachable {
        (200, "ok", "connected")
    } else {
        (503, "degraded", "unreachable")
    }
}

/// The API's published documentation: its title, version, description,
/// license and tag groups. Generating the document is the application's job.
#[derive(Debug, Clone, Copy)]
pub struct ApiDoc;

impl ApiDoc {
    /// Title, version, description and license of the documented API.
    pub fn info() -> (i: (&'static str, &'static str, &'static str, &'static str))
        ensures
            i.0@ == "Notifico API"@,
            i.1@ == "0.1.0"@,
            i.2@ == "Self-hosted notification server with multi-channel delivery"@,
            i.3@ == "Apache-2.0"@,
    {
        ("Notifico API", "0.1.0", "Self-hosted notification server with multi-channel delivery", "Apache-2.0")
    }

    /// The tag groups of the documented operations, with their descriptions, in order.
    pub fn tags() -> (t: Vec<(&'static str, &'static str)>)
        ensures
            t@.len() == 4,
            t@[0].0@ == "events"@ && t@[0].1@ == "Event ingestion"@,
            t@[1].0@ == "broadcasts"@ && t@[1].1@ == "Broadcast sending"@,
            t@[2].0@ == "admin"@ && t@[2].1@ == "Admin CRUD operations"@,
            t@[3].0@ == "public"@ && t@[3].1@ == "Public API (preferences, unsubscribe)"@,
    {
        let mut t: Vec<(&'static str, &'static str)> = Vec::new();
        t.push(("events", "Event ingestion"));
        t.push(("broadcasts", "Broadcast sending"));
        t.push(("admin", "Admin CRUD operations"));
        t.push(("public", "Public API (preferences, unsubscribe)"));
        t
    }
}

} // verus!
