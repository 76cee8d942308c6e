use vstd::prelude::*;

verus! {

/// `serde_json::Value`, carried through opaquely (rendered message bodies,
/// event data, recipient metadata).
#[verifier::external_type_specification]
#[verifier::external_body]
pub struct ExJsonValue(serde_json::Value);

/// `Clone::clone` of `serde_json::Value` (derived): a deep copy, equal to the
/// original.
pub assume_specification[ <serde_json::Value as Clone>::clone ](v: &serde_json::Value) -> (copy: serde_json::Value)
    ensures
        copy == *v,
;

/// The bytes that serde_json writes for a JSON object whose members are the
/// given keys, each with a string value.
pub uninterp spec fn spec_json_string_object(entries: Seq<(Seq<char>, Seq<char>)>) -> Seq<u8>;

/// The string value of member `key` of the JSON object in `bytes`, as serde_json
/// reads it: `None` when the bytes are not JSON, not an object, lack the member
/// or hold something other than a string there.
pub uninterp spec fn spec_json_get_str(bytes: Seq<u8>, key: Seq<char>) -> Option<Seq<char>>;

/// The value paired with `key` in `entries`, if any.
pub open spec fn entry_value(entries: Seq<(Seq<char>, Seq<char>)>, key: Seq<char>) -> Option<
    Seq<char>,
> {
    if exists|i: int| 0 <= i < entries.len() && entries[i].0 == key {
        Some(entries[choose|i: int| 0 <= i < entries.len() && entries[i].0 == key].1)
    } else {
        None
    }
}

/// No key occurs twice.
pub open spec fn distinct_keys(entries: Seq<(Seq<char>, Seq<char>)>) -> bool {
    forall|i: int, j: int|
        0 <= i < entries.len() && 0 <= j < entries.len() && i != j ==> entries[i].0 != entries[j].0
}

/// The plain view of a list of string pairs.
pub open spec fn pairs_view(entries: Seq<(String, String)>) -> Seq<(Seq<char>, Seq<char>)> {
    entries.map_values(|e: (String, String)| (e.0@, e.1@))
}

/// A copy of a list of string pairs.
pub fn clone_pairs(v: &Vec<(String, String)>) -> (c: Vec<(String, String)>)
    ensures
        pairs_view(c@) == pairs_view(v@),
{
    let mut c: Vec<(String, String)> = Vec::new();
    let mut i: usize = 0;
    while i < v.len()
        invariant
            i <= v@.len(),
            c@.len() == i,
            pairs_view(c@) == pairs_view(v@.subrange(0, i as int)),
        decreases v@.len() - i,
    {
        let a = v[i].0.clone();
        let b = v[i].1.clone();
        let ghost c0 = c@;
        c.push((a, b));
        proof {
            let next = v@.subrange(0, i + 1);
            assert(pairs_view(c@).len() == pairs_view(next).len());
            assert forall|j: int| 0 <= j < pairs_view(c@).len() implies pairs_view(c@)[j]
                == pairs_view(next)[j] by {
                if j < i {
                    assert(c@[j] == c0[j]);
                    assert(pairs_view(c0)[j] == pairs_view(v@.subrange(0, i as int))[j]);
                }
            }
            assert(pairs_view(c@) =~= pairs_view(next));
        }
        i = i + 1;
    }
    assert(v@.subrange(0, v@.len() as int) =~= v@);
    c
}

/// `serde_json::to_vec` of a `serde_json::Map` holding each pair as a string
/// member. Serialising such a map cannot fail. Reading a member back from the
/// written bytes gives the string that was written, and a key that was not
/// written is absent.
#[verifier::external_body]
pub(crate) fn json_string_object(entries: &Vec<(String, String)>) -> (bytes: Vec<u8>)
    requires
        distinct_keys(pairs_view(entries@)),
    ensures
        bytes@ == spec_json_string_object(pairs_view(entries@)),
        forall|key: Seq<char>|
            #[trigger] spec_json_get_str(bytes@, key) == entry_value(pairs_view(entries@), key),
{
    let map: serde_json::Map<String, serde_json::Value> = entries
        .iter()
        .map(|(k, v)| (k.clone(), serde_json::Value::String(v.clone())))
        .collect();
    serde_json::to_vec(&map).unwrap_or_default()
}

/// `serde_json::from_slice::<Value>`, then `get(key)` and `as_str()`: the
/// string member `key` of the JSON object in `bytes`, if there is one.
#[verifier::external_body]
pub(crate) fn json_get_str(bytes: &[u8], key: &str) -> (value: Option<String>)
    ensures
        value matches Some(v) ==> spec_json_get_str(bytes@, key@) == Some(v@),
        value is None ==> spec_json_get_str(bytes@, key@) is None,
{
    match serde_json::from_slice::<serde_json::Value>(bytes) {
        Ok(v) => match v.get(key) {
            Some(member) => match member.as_str() {
                Some(text) => Some(text.to_string()),
                None => None,
            },
            None => None,
        },
        Err(_) => None,
    }
}

/// The message of the error `serde_json::from_str` gives for a text that is
/// not a JSON document, `None` for one that is.
pub uninterp spec fn spec_json_error(text: Seq<char>) -> Option<Seq<char>>;

/// A parsed JSON document, or the message of the parse error.
pub type ParsedJson = Result<serde_json::Value, String>;

/// The value `serde_json::from_str` reads from a text that is a JSON
/// document.
pub uninterp spec fn spec_json_parse_str(text: Seq<char>) -> serde_json::Value;

/// `serde_json::from_str::<Value>`, the error taken by its message: the
/// value read from the text, or the parse error.
#[verifier::external_body]
pub(crate) fn parse_json(text: &str) -> (res: ParsedJson)
    ensures
        res is Ok ==> spec_json_error(text@) is None,
        res matches Ok(v) ==> v == spec_json_parse_str(text@),
        res matches Err(e) ==> (spec_json_error(text@) matches Some(m) && m == e@),
{
    match serde_json::from_str(text) {
        Ok(v) => Ok(v),
        Err(e) => Err(e.to_string()),
    }
}

/// `Value::Object(Map::new())` of serde_json: an empty JSON object. Nothing is
/// stated of it, since a `Value` is opaque here.
#[verifier::external_body]
pub(crate) fn empty_object() -> (v: serde_json::Value)
{
    serde_json::Value::Object(serde_json::Map::new())
}

/// The message of the error `serde_json::from_slice` gives for bytes that are
/// not a JSON document, `None` for bytes that are.
pub uninterp spec fn spec_json_slice_error(bytes: Seq<u8>) -> Option<Seq<char>>;

/// The value `serde_json::from_slice` reads from bytes that are a JSON
/// document.
pub uninterp spec fn spec_json_parse(bytes: Seq<u8>) -> serde_json::Value;

/// `serde_json::from_slice::<Value>`, the error taken by its message: the
/// value read from the bytes, or the parse error.
#[verifier::external_body]
pub(crate) fn parse_json_bytes(bytes: &[u8]) -> (res: ParsedJson)
    ensures
        res is Ok ==> spec_json_slice_error(bytes@) is None,
        res matches Ok(v) ==> v == spec_json_parse(bytes@),
        res matches Err(e) ==> (spec_json_slice_error(bytes@) matches Some(m) && m == e@),
{
    match serde_json::from_slice(bytes) {
        Ok(v) => Ok(v),
        Err(e) => Err(e.to_string()),
    }
}

/// Bytes written, or the message of the error.
pub type ParsedBytes = Result<Vec<u8>, String>;

/// The bytes `serde_json::to_vec` writes for a value.
pub uninterp spec fn spec_json_to_vec(value: serde_json::Value) -> Seq<u8>;

/// `serde_json::to_vec` of a `Value`, the error taken by its message: the
/// bytes written for the value.
#[verifier::external_body]
pub(crate) fn json_to_vec(value: &serde_json::Value) -> (res: ParsedBytes)
    ensures
        res matches Ok(b) ==> b@ == spec_json_to_vec(*value),
{
    serde_json::to_vec(value).map_err(|e| e.to_string())
}

} // verus!
