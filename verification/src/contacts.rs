//! Recipients and their contacts: the rows the database returns, and the
//! lookups of a contact by channel (inline contacts first, then stored ones).
use vstd::prelude::*;

use crate::ids::{parse_uuid_field, spec_uuid_parse, uuid_field};
use crate::json::pairs_view;
use crate::text::str_eq;

verus! {

/// The value of the first pair whose key is `key`.
pub open spec fn lookup(pairs: Seq<(Seq<char>, Seq<char>)>, key: Seq<char>) -> Option<Seq<char>>
    decreases pairs.len(),
{
    if pairs.len() == 0 {
        None
    } else if pairs[0].0 == key {
        Some(pairs[0].1)
    } else {
        lookup(pairs.subrange(1, pairs.len() as int), key)
    }
}

proof fn lemma_lookup_skip(pairs: Seq<(Seq<char>, Seq<char>)>, key: Seq<char>, i: int)
    requires
        0 <= i < pairs.len(),
        pairs[i].0 != key,
    ensures
        lookup(pairs.subrange(i, pairs.len() as int), key) == lookup(
            pairs.subrange(i + 1, pairs.len() as int),
            key,
        ),
{
    let s = pairs.subrange(i, pairs.len() as int);
    assert(s.subrange(1, s.len() as int) =~= pairs.subrange(i + 1, pairs.len() as int));
}

/// The value paired with `key` in `pairs`: the first such pair's.
pub fn find_value(pairs: &Vec<(String, String)>, key: &str) -> (v: Option<String>)
    ensures
        match v { Some(s) => Some(s@), None => None } == lookup(pairs_view(pairs@), key@),
{
    let ghost pv = pairs_view(pairs@);
    assert(pv.subrange(0, pv.len() as int) =~= pv);
    let mut i: usize = 0;
    while i < pairs.len()
        invariant
            i <= pairs@.len(),
            pv == pairs_view(pairs@),
            lookup(pv, key@) == lookup(pv.subrange(i as int, pv.len() as int), key@),
        decreases pairs@.len() - i,
    {
        if str_eq(pairs[i].0.as_str(), key) {
            assert(pv.subrange(i as int, pv.len() as int)[0] == pv[i as int]);
            return Some(pairs[i].1.clone());
        }
        proof {
            lemma_lookup_skip(pv, key@, i as int);
        }
        i = i + 1;
    }
    assert(pv.subrange(i as int, pv.len() as int).len() == 0);
    None
}

/// The contact of a recipient on `channel`: an inline contact of the request
/// first, else the first stored contact on that channel.
pub open spec fn select_contact(
    inline: Seq<(Seq<char>, Seq<char>)>,
    stored: Seq<(Seq<char>, Seq<char>)>,
    channel: Seq<char>,
) -> Option<Seq<char>> {
    match lookup(inline, channel) {
        Some(v) => Some(v),
        None => lookup(stored, channel),
    }
}

/// Picks the contact of a recipient on `channel`.
pub fn choose_contact(
    inline: &Vec<(String, String)>,
    stored: &Vec<(String, String)>,
    channel: &str,
) -> (c: Option<String>)
    ensures
        match c { Some(s) => Some(s@), None => None } == select_contact(
            pairs_view(inline@),
            pairs_view(stored@),
            channel@,
        ),
{
    match find_value(inline, channel) {
        Some(v) => Some(v),
        None => find_value(stored, channel),
    }
}

/// A recipient of a project.
#[derive(Debug, Clone)]
pub struct RecipientRow {
    pub id: u128,
    pub project_id: u128,
    pub external_id: String,
    pub locale: String,
    pub timezone: String,
    pub metadata: serde_json::Value,
}

/// A recipient as the database returns it: ids as text.
#[derive(Debug, Clone)]
pub struct RecipientRaw {
    pub id: String,
    pub project_id: String,
    pub external_id: String,
    pub locale: String,
    pub timezone: String,
    pub metadata: serde_json::Value,
}

impl RecipientRaw {
    /// Reads the row, its ids parsed.
    pub fn into_row(self) -> (res: Result<RecipientRow, String>)
        ensures
            match res {
                Ok(row) => spec_uuid_parse(self.id@) == Ok::<u128, Seq<char>>(row.id)
                    && spec_uuid_parse(self.project_id@) == Ok::<u128, Seq<char>>(row.project_id)
                    && row.external_id == self.external_id && row.locale == self.locale
                    && row.timezone == self.timezone && row.metadata == self.metadata,
                Err(e) => if uuid_field("invalid id UUID: "@, self.id@) is Err {
                    uuid_field("invalid id UUID: "@, self.id@) == Err::<u128, Seq<char>>(e@)
                } else {
                    uuid_field("invalid project_id UUID: "@, self.project_id@) == Err::<u128, Seq<char>>(e@)
                },
            },
    {
        proof {
            reveal_strlit("invalid id UUID: ");
            reveal_strlit("invalid project_id UUID: ");
        }
        let id = match parse_uuid_field("invalid id UUID: ", self.id.as_str()) {
            Ok(u) => u,
            Err(e) => return Err(e),
        };
        let project_id = match parse_uuid_field("invalid project_id UUID: ", self.project_id.as_str()) {
            Ok(u) => u,
            Err(e) => return Err(e),
        };
        Ok(RecipientRow {
            id,
            project_id,
            external_id: self.external_id,
            locale: self.locale,
            timezone: self.timezone,
            metadata: self.metadata,
        })
    }
}

/// A stored contact of a recipient.
#[derive(Debug, Clone)]
pub struct ContactRow {
    pub id: u128,
    pub channel: String,
    pub value: String,
    pub verified: bool,
}

/// A stored contact as the database returns it: its id as text.
#[derive(Debug, Clone)]
pub struct ContactRaw {
    pub id: String,
    pub channel: String,
    pub value: String,
    pub verified: bool,
}

impl ContactRaw {
    /// Reads the row, its id parsed.
    pub fn into_row(self) -> (res: Result<ContactRow, String>)
        ensures
            match res {
                Ok(row) => spec_uuid_parse(self.id@) == Ok::<u128, Seq<char>>(row.id) && row.channel
                    == self.channel && row.value == self.value && row.verified == self.verified,
                Err(e) => uuid_field("invalid UUID: "@, self.id@) == Err::<u128, Seq<char>>(e@),
            },
    {
        proof {
            reveal_strlit("invalid UUID: ");
        }
        let id = match parse_uuid_field("invalid UUID: ", self.id.as_str()) {
            Ok(u) => u,
            Err(e) => return Err(e),
        };
        Ok(ContactRow { id, channel: self.channel, value: self.value, verified: self.verified })
    }
}

} // verus!
