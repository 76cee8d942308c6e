//! Recipient preferences and unsubscribe tokens.
use vstd::prelude::*;

use crate::ids::{
    new_uuid_v7, parse_uuid_field, spec_uuid_parse, uuid_field, uuid_simple, uuid_to_simple_string,
};
use crate::text::str_eq;

verus! {

/// A recipient has opted out of a category on a channel exactly when a
/// preference is stored for it and it is disabled.
pub fn opted_out(stored_enabled: Option<bool>) -> (out: bool)
    ensures
        out == (stored_enabled == Some(false)),
{
    match stored_enabled {
        Some(enabled) => !enabled,
        None => false,
    }
}

/// Events of the `transactional` category are sent regardless of preferences.
pub fn respects_preferences(category: &str) -> (b: bool)
    ensures
        b == (category@ != "transactional"@),
{
    !str_eq(category, "transactional")
}

/// What an unsubscribe token turns off: its category (`marketing` by default)
/// on its channel (`email` by default).
pub fn unsubscribe_target(category: Option<&str>, channel: Option<&str>) -> (t: (String, String))
    ensures
        t.0@ == match category { Some(c) => c@, None => "marketing"@ },
        t.1@ == match channel { Some(c) => c@, None => "email"@ },
{
    let c = match category {
        Some(c) => String::from_str(c),
        None => String::from_str("marketing"),
    };
    let ch = match channel {
        Some(ch) => String::from_str(ch),
        None => String::from_str("email"),
    };
    (c, ch)
}

/// A token for id `id`: `unsub_` and the id's simple form.
pub open spec fn unsubscribe_token(id: u128) -> Seq<char> {
    seq!['u', 'n', 's', 'u', 'b', '_'] + uuid_simple(id)
}

/// A fresh unsubscribe token.
pub fn new_unsubscribe_token() -> (t: String)
    ensures
        exists|id: u128| t@ == #[trigger] unsubscribe_token(id),
{
    proof {
        reveal_strlit("unsub_");
    }
    let id = new_uuid_v7();
    let mut t = String::from_str("unsub_");
    t.append(uuid_to_simple_string(id).as_str());
    assert(t@ =~= unsubscribe_token(id));
    t
}

/// How a preference is written: an existing row is updated, else one is inserted.
pub fn set_preference_statement(existing: bool) -> (sql: &'static str)
    ensures
        existing ==> sql@ == "UPDATE recipient_preference SET enabled = ?, updated_at = CURRENT_TIMESTAMP WHERE recipient_id = ? AND category = ? AND channel = ?"@,
        !existing ==> sql@ == "INSERT INTO recipient_preference (id, recipient_id, category, channel, enabled) VALUES (?, ?, ?, ?, ?)"@,
{
    if existing {
        "UPDATE recipient_preference SET enabled = ?, updated_at = CURRENT_TIMESTAMP WHERE recipient_id = ? AND category = ? AND channel = ?"
    } else {
        "INSERT INTO recipient_preference (id, recipient_id, category, channel, enabled) VALUES (?, ?, ?, ?, ?)"
    }
}

/// A stored unsubscribe link: its recipient and what it turns off.
#[derive(Debug, Clone)]
pub struct UnsubscribeInfo {
    pub id: u128,
    pub recipient_id: u128,
    pub event_id: Option<u128>,
    pub category: Option<String>,
    pub channel: Option<String>,
}

/// An unsubscribe link as the database returns it: ids as text.
#[derive(Debug, Clone)]
pub struct UnsubscribeRaw {
    pub id: String,
    pub recipient_id: String,
    pub event_id: Option<String>,
    pub category: Option<String>,
    pub channel: Option<String>,
}

/// Why a raw unsubscribe row cannot be read, if it cannot: its event id is
/// checked first, then its id, then its recipient id.
pub open spec fn unsubscribe_raw_error(raw: UnsubscribeRaw) -> Option<Seq<char>> {
    if raw.event_id matches Some(e) && uuid_field("invalid event UUID: "@, e@) is Err {
        Some(uuid_field("invalid event UUID: "@, raw.event_id->0@)->Err_0)
    } else if uuid_field("invalid UUID: "@, raw.id@) is Err {
        Some(uuid_field("invalid UUID: "@, raw.id@)->Err_0)
    } else if uuid_field("invalid UUID: "@, raw.recipient_id@) is Err {
        Some(uuid_field("invalid UUID: "@, raw.recipient_id@)->Err_0)
    } else {
        None
    }
}

impl UnsubscribeRaw {
    /// Reads the row, its ids parsed.
    pub fn into_info(self) -> (res: Result<UnsubscribeInfo, String>)
        ensures
            res is Ok <==> unsubscribe_raw_error(self) is None,
            res matches Err(e) ==> unsubscribe_raw_error(self) == Some(e@),
            res matches Ok(info) ==> {
                &&& spec_uuid_parse(self.id@) == Ok::<u128, Seq<char>>(info.id)
                &&& spec_uuid_parse(self.recipient_id@) == Ok::<u128, Seq<char>>(info.recipient_id)
                &&& (match self.event_id {
                    Some(e) => spec_uuid_parse(e@) matches Ok(u) && info.event_id == Some(u),
                    None => info.event_id is None,
                })
                &&& info.category == self.category
                &&& info.channel == self.channel
            },
    {
        proof {
            reveal_strlit("invalid event UUID: ");
            reveal_strlit("invalid UUID: ");
        }
        let event_id = match &self.event_id {
            Some(e) => match parse_uuid_field("invalid event UUID: ", e.as_str()) {
                Ok(u) => Some(u),
                Err(m) => return Err(m),
            },
            None => None,
        };
        let id = match parse_uuid_field("invalid UUID: ", self.id.as_str()) {
            Ok(u) => u,
            Err(m) => return Err(m),
        };
        let recipient_id = match parse_uuid_field("invalid UUID: ", self.recipient_id.as_str()) {
            Ok(u) => u,
            Err(m) => return Err(m),
        };
        Ok(UnsubscribeInfo { id, recipient_id, event_id, category: self.category, channel: self.channel })
    }
}

/// The answer to a one-click unsubscribe: 200 when a link was applied, 404
/// for an unknown token.
pub fn unsubscribe_answer(applied: bool) -> (a: (u16, &'static str))
    ensures
        applied ==> a.0 == 200 && a.1@ == "You have been unsubscribed."@,
        !applied ==> a.0 == 404 && a.1@ == "Invalid or expired unsubscribe link."@,
{
    if applied {
        (200, "You have been unsubscribed.")
    } else {
        (404, "Invalid or expired unsubscribe link.")
    }
}

} // verus!
