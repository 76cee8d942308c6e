//! Identifiers: UUIDs are held as their 128-bit values and written in the
//! textual forms of the uuid crate.
use vstd::prelude::*;

use crate::text::lower_hex;

verus! {

/// 256 to the power `e`.
pub open spec fn pow256(e: nat) -> nat
    decreases e,
{
    if e == 0 {
        1
    } else {
        256 * pow256((e - 1) as nat)
    }
}

/// The sixteen big-endian bytes of a UUID.
pub open spec fn uuid_bytes(id: u128) -> Seq<u8> {
    Seq::new(16, |i: int| ((id as nat) / pow256((15 - i) as nat) % 256) as u8)
}

/// The simple form: 32 lowercase hex digits.
pub open spec fn uuid_simple(id: u128) -> Seq<char> {
    lower_hex(uuid_bytes(id))
}

/// The hyphenated form: lowercase hex digits grouped 8-4-4-4-12.
pub open spec fn uuid_hyphenated(id: u128) -> Seq<char> {
    let h = uuid_simple(id);
    h.subrange(0, 8) + seq!['-'] + h.subrange(8, 12) + seq!['-'] + h.subrange(12, 16) + seq!['-']
        + h.subrange(16, 20) + seq!['-'] + h.subrange(20, 32)
}

/// `Uuid::from_u128(id).to_string()` of the uuid crate: the hyphenated
/// lowercase form.
#[verifier::external_body]
pub(crate) fn uuid_to_string(id: u128) -> (s: String)
    ensures
        s@ == uuid_hyphenated(id),
{
    uuid::Uuid::from_u128(id).to_string()
}

/// `Uuid::from_u128(id).simple().to_string()` of the uuid crate: 32
/// lowercase hex digits.
#[verifier::external_body]
pub(crate) fn uuid_to_simple_string(id: u128) -> (s: String)
    ensures
        s@ == uuid_simple(id),
{
    uuid::Uuid::from_u128(id).simple().to_string()
}

/// `Uuid::now_v7()` of the uuid crate: a fresh time-ordered UUID. Its value
/// depends on the clock and on chance; nothing is stated of it.
#[verifier::external_body]
pub(crate) fn new_uuid_v7() -> (id: u128)
{
    uuid::Uuid::now_v7().as_u128()
}

/// What `Uuid::parse_str` of the uuid crate gives for a text: the id as an
/// integer, or the message of its error.
pub uninterp spec fn spec_uuid_parse(text: Seq<char>) -> Result<u128, Seq<char>>;

/// An id parsed from text, or the message of the parse error.
pub type ParsedId = Result<u128, String>;

/// Whether `text` is one of the forms the uuid crate writes for `u`: the
/// hyphenated or the simple form.
pub open spec fn written_id(text: Seq<char>, u: u128) -> bool {
    text == uuid_hyphenated(u) || text == uuid_simple(u)
}

/// `Uuid::parse_str` of the uuid crate, the id taken as an integer and the
/// error by its message. The crate documents that every form it writes parses
/// back, so the hyphenated and simple forms of an id give that id.
#[verifier::external_body]
pub(crate) fn parse_uuid(text: &str) -> (res: ParsedId)
    ensures
        res matches Ok(u) ==> (spec_uuid_parse(text@) matches Ok(v) && v == u),
        res matches Err(e) ==> (spec_uuid_parse(text@) matches Err(m) && m == e@),
        forall|u: u128| #[trigger] written_id(text@, u) ==> res == ParsedId::Ok(u),
{
    match uuid::Uuid::parse_str(text) {
        Ok(u) => Ok(u.as_u128()),
        Err(e) => Err(e.to_string()),
    }
}

/// An id read from a text field: the parsed id, or `prefix` followed by the
/// parse error's message.
pub open spec fn uuid_field(prefix: Seq<char>, text: Seq<char>) -> Result<u128, Seq<char>> {
    match spec_uuid_parse(text) {
        Ok(u) => Ok(u),
        Err(e) => Err(prefix + e),
    }
}

/// Reads an id from a text field; a text that is no UUID is refused with
/// `prefix` followed by the parse error's message.
pub fn parse_uuid_field(prefix: &str, text: &str) -> (res: Result<u128, String>)
    ensures
        match res {
            Ok(u) => uuid_field(prefix@, text@) == Ok::<u128, Seq<char>>(u),
            Err(e) => uuid_field(prefix@, text@) == Err::<u128, Seq<char>>(e@),
        },
{
    match parse_uuid(text) {
        Ok(u) => Ok(u),
        Err(e) => {
            let mut m = String::from_str(prefix);
            m.append(e.as_str());
            Err(m)
        },
    }
}

} // verus!
