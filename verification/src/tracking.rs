//! Signed tracking tokens for open and click tracking.
//!
//! A token is `base64url(payload).base64url(signature)`, where the payload is
//! the JSON object `{"d": delivery_log_id}` or `{"d": delivery_log_id, "u": url}`
//! and the signature is the HMAC-SHA256 of the encoded payload's bytes.
use vstd::prelude::*;
use vstd::utf8::encode_utf8;

use crate::base64::{
    base64_decode, base64_url, decode_url, encode_url, is_symbol, lemma_base64_no_dot, lemma_unpadded_shape,
    lemma_base64_roundtrip, lemma_decode_url_result,
};
use crate::crypto::{hmac_sha256, hmac_sha256_verify, spec_hmac_sha256};
use crate::ids::{uuid_hyphenated, uuid_to_string};
use crate::json::{
    distinct_keys, entry_value, json_get_str, json_string_object, pairs_view, spec_json_get_str,
    spec_json_string_object,
};

verus! {

/// The JSON members of a token's payload.
pub open spec fn payload_entries(delivery_log_id: Seq<char>, url: Option<Seq<char>>) -> Seq<
    (Seq<char>, Seq<char>),
> {
    match url {
        Some(u) => seq![(seq!['d'], delivery_log_id), (seq!['u'], u)],
        None => seq![(seq!['d'], delivery_log_id)],
    }
}

/// The payload part of a token: the encoded JSON payload.
pub open spec fn token_payload(delivery_log_id: Seq<char>, url: Option<Seq<char>>) -> Seq<char> {
    base64_url(spec_json_string_object(payload_entries(delivery_log_id, url)))
}

/// The signature part of a token: the encoded HMAC of the payload part's
/// bytes.
pub open spec fn token_signature(delivery_log_id: Seq<char>, url: Option<Seq<char>>, key: Seq<u8>) -> Seq<
    char,
> {
    base64_url(spec_hmac_sha256(key, encode_utf8(token_payload(delivery_log_id, url))))
}

/// The token `create_tracking_token` writes.
pub open spec fn tracking_token(
    delivery_log_id: Seq<char>,
    url: Option<Seq<char>>,
    key: Seq<u8>,
) -> Seq<char> {
    token_payload(delivery_log_id, url) + seq!['.'] + token_signature(delivery_log_id, url, key)
}

/// Whether `i` is the position of the first `c` in `s`.
pub open spec fn is_first_index(s: Seq<char>, c: char, i: int) -> bool {
    0 <= i < s.len() && s[i] == c && forall|j: int| 0 <= j < i ==> s[j] != c
}

/// What `verify_tracking_token` returns: split at the first dot, the signature
/// must decode and equal the HMAC of the payload part's bytes; the payload must
/// decode to a JSON object with a string member `d`; `u` is read when present.
pub open spec fn verified_token(token: Seq<char>, key: Seq<u8>) -> Option<
    (Seq<char>, Option<Seq<char>>),
> {
    if exists|i: int| is_first_index(token, '.', i) {
        let dot = choose|i: int| is_first_index(token, '.', i);
        let payload = token.subrange(0, dot);
        let signature = token.subrange(dot + 1, token.len() as int);
        match base64_decode(signature, true, false) {
            None => None,
            Some(sig) => if sig != spec_hmac_sha256(key, encode_utf8(payload)) {
                None
            } else {
                match base64_decode(payload, true, false) {
                    None => None,
                    Some(bytes) => match spec_json_get_str(bytes, seq!['d']) {
                        None => None,
                        Some(d) => Some((d, spec_json_get_str(bytes, seq!['u']))),
                    },
                }
            },
        }
    } else {
        None
    }
}

/// The view of an optional string slice.
pub open spec fn opt_view(s: Option<&str>) -> Option<Seq<char>> {
    match s {
        Some(x) => Some(x@),
        None => None,
    }
}

/// Creates a signed tracking token for a delivery and, for click tracking, the
/// target URL. Verifying the token with the same key gives both back.
pub fn create_tracking_token(delivery_log_id: &str, url: Option<&str>, key: &[u8; 32]) -> (token:
    String)
    ensures
        token@ == tracking_token(delivery_log_id@, opt_view(url), key@),
        verified_token(token@, key@) == Some((delivery_log_id@, opt_view(url))),
        token_signature(delivery_log_id@, opt_view(url), key@).len() == 43,
        forall|i: int|
            0 <= i < 43 ==> is_symbol(
                #[trigger] token_signature(delivery_log_id@, opt_view(url), key@)[i],
                true,
            ),
{
    proof {
        reveal_strlit("d");
        reveal_strlit("u");
        reveal_strlit(".");
    }
    assert("d"@ =~= seq!['d']);
    assert("u"@ =~= seq!['u']);
    let mut entries: Vec<(String, String)> = Vec::new();
    entries.push((String::from_str("d"), String::from_str(delivery_log_id)));
    match url {
        Some(u) => {
            entries.push((String::from_str("u"), String::from_str(u)));
        },
        None => {},
    }
    let ghost d_view = delivery_log_id@;
    let ghost u_view = opt_view(url);
    let ghost entries_view = payload_entries(d_view, u_view);
    assert(pairs_view(entries@) =~= entries_view);
    assert(seq!['d'][0] != seq!['u'][0]);
    assert(distinct_keys(entries_view));
    let payload_bytes = json_string_object(&entries);
    let encoded_payload = encode_url(payload_bytes.as_slice());
    let signature = hmac_sha256(key, encoded_payload.as_str().as_bytes());
    let encoded_signature = encode_url(signature.as_slice());
    let mut token = encoded_payload.clone();
    token.append(".");
    token.append(encoded_signature.as_str());
    proof {
        let p = encoded_payload@;
        let s = encoded_signature@;
        let t = token@;
        assert(t =~= p + seq!['.'] + s);
        lemma_base64_no_dot(payload_bytes@, true);
        assert(is_first_index(t, '.', p.len() as int)) by {
            assert forall|j: int| 0 <= j < p.len() implies t[j] != '.' by {
                assert(t[j] == p[j]);
            }
        }
        let dot = choose|i: int| is_first_index(t, '.', i);
        assert(dot == p.len());
        assert(t.subrange(0, dot) =~= p);
        assert(t.subrange(dot + 1, t.len() as int) =~= s);
        lemma_base64_roundtrip(signature@, true, false);
        lemma_unpadded_shape(signature@, true);
        lemma_base64_roundtrip(payload_bytes@, true, false);
        let d_key = seq!['d'];
        let u_key = seq!['u'];
        assert(spec_json_get_str(payload_bytes@, d_key) == entry_value(entries_view, d_key));
        assert(spec_json_get_str(payload_bytes@, u_key) == entry_value(entries_view, u_key));
        assert(entries_view[0].0 == d_key);
        assert(entry_value(entries_view, d_key) == Some(d_view));
        match u_view {
            Some(u) => {
                assert(entries_view[1].0 == u_key);
                assert(entry_value(entries_view, u_key) == Some(u));
            },
            None => {
                assert(d_key[0] != u_key[0]);
                assert(entries_view[0].0 != u_key);
                assert(!(exists|i: int| 0 <= i < entries_view.len() && entries_view[i].0 == u_key));
            },
        }
    }
    token
}

/// Verifies a tracking token and returns the delivery id and the optional URL
/// it carries, or `None` when it is malformed or its signature does not match.
pub fn verify_tracking_token(token: &str, key: &[u8; 32]) -> (res: Option<(String, Option<String>)>)
    ensures
        res matches Some((d, u)) ==> verified_token(token@, key@) == Some(
            (d@, match u { Some(x) => Some(x@), None => None }),
        ),
        res is None ==> verified_token(token@, key@) is None,
{
    proof {
        reveal_strlit("d");
        reveal_strlit("u");
    }
    let len = token.unicode_len();
    let mut dot: usize = 0;
    while dot < len && token.get_char(dot) != '.'
        invariant
            len == token@.len(),
            dot <= len,
            forall|j: int| 0 <= j < dot ==> token@[j] != '.',
        decreases len - dot,
    {
        dot = dot + 1;
    }
    if dot == len {
        assert(!exists|i: int| is_first_index(token@, '.', i));
        return None;
    }
    assert(is_first_index(token@, '.', dot as int));
    assert(forall|i: int| is_first_index(token@, '.', i) ==> i == dot);
    let encoded_payload = token.substring_char(0, dot);
    let encoded_signature = token.substring_char(dot + 1, len);
    let signature = decode_url(encoded_signature);
    proof {
        lemma_decode_url_result(encoded_signature@, match signature { Some(ref b) => Some(b@), None => None });
    }
    let signature = match signature {
        Some(s) => s,
        None => return None,
    };
    if !hmac_sha256_verify(key, encoded_payload.as_bytes(), signature.as_slice()) {
        return None;
    }
    let payload_bytes = decode_url(encoded_payload);
    proof {
        lemma_decode_url_result(encoded_payload@, match payload_bytes { Some(ref b) => Some(b@), None => None });
    }
    let payload_bytes = match payload_bytes {
        Some(b) => b,
        None => return None,
    };
    assert("d"@ =~= seq!['d']);
    assert("u"@ =~= seq!['u']);
    let delivery_log_id = match json_get_str(payload_bytes.as_slice(), "d") {
        Some(d) => d,
        None => return None,
    };
    let url = json_get_str(payload_bytes.as_slice(), "u");
    Some((delivery_log_id, url))
}

/// The delivery an open-pixel request records: with a key configured and a
/// token that verifies, its delivery id; otherwise nothing is recorded (the
/// pixel is served either way).
pub open spec fn opened_delivery(token: Seq<char>, key: Option<Seq<u8>>) -> Option<Seq<char>> {
    match key {
        Some(k) => match verified_token(token, k) {
            Some((d, _)) => Some(d),
            None => None,
        },
        None => None,
    }
}

/// What a click request records and where it redirects: only a token that
/// verifies under a configured key and carries a URL; anything else is a bad
/// request.
pub open spec fn clicked_link(token: Seq<char>, key: Option<Seq<u8>>) -> Option<(Seq<char>, Seq<char>)> {
    match key {
        Some(k) => match verified_token(token, k) {
            Some((d, Some(u))) => Some((d, u)),
            _ => None,
        },
        None => None,
    }
}

/// Decides an open-pixel request.
pub fn open_event(token: &str, key: &Option<[u8; 32]>) -> (record: Option<String>)
    ensures
        match record { Some(d) => Some(d@), None => None } == opened_delivery(
            token@,
            match key { Some(k) => Some(k@), None => None },
        ),
{
    match key {
        Some(k) => match verify_tracking_token(token, k) {
            Some((d, _)) => Some(d),
            None => None,
        },
        None => None,
    }
}

/// The 1x1 transparent GIF the open pixel answers with.
pub open spec fn transparent_gif() -> Seq<u8> {
    seq![0x47u8, 0x49u8, 0x46u8, 0x38u8, 0x39u8, 0x61u8, 0x01u8, 0x00u8, 0x01u8, 0x00u8, 0x80u8, 0x00u8, 0x00u8, 0xffu8, 0xffu8, 0xffu8, 0x00u8, 0x00u8, 0x00u8, 0x21u8, 0xf9u8, 0x04u8, 0x01u8, 0x00u8, 0x00u8, 0x00u8, 0x00u8, 0x2cu8, 0x00u8, 0x00u8, 0x00u8, 0x00u8, 0x01u8, 0x00u8, 0x01u8, 0x00u8, 0x00u8, 0x02u8, 0x02u8, 0x44u8, 0x01u8, 0x00u8, 0x3bu8]
}

/// The answer to an open-pixel request, and the delivery to record it for.
#[derive(Debug, Clone)]
pub struct OpenResponse {
    pub status: u16,
    pub content_type: &'static str,
    pub body: Vec<u8>,
    /// The delivery whose open is recorded, if any.
    pub record: Option<String>,
}

/// Answers an open-pixel request: always `200` with the transparent GIF, so
/// that a valid and an invalid token get the same answer; the open is
/// recorded only for a token that verifies under a configured key.
pub fn open_response(token: &str, key: &Option<[u8; 32]>) -> (r: OpenResponse)
    ensures
        r.status == 200,
        r.content_type@ == "image/gif"@,
        r.body@ == transparent_gif(),
        match r.record { Some(d) => Some(d@), None => None } == opened_delivery(
            token@,
            match key { Some(k) => Some(k@), None => None },
        ),
{
    let body = vec![0x47u8, 0x49u8, 0x46u8, 0x38u8, 0x39u8, 0x61u8, 0x01u8, 0x00u8, 0x01u8, 0x00u8, 0x80u8, 0x00u8, 0x00u8, 0xffu8, 0xffu8, 0xffu8, 0x00u8, 0x00u8, 0x00u8, 0x21u8, 0xf9u8, 0x04u8, 0x01u8, 0x00u8, 0x00u8, 0x00u8, 0x00u8, 0x2cu8, 0x00u8, 0x00u8, 0x00u8, 0x00u8, 0x01u8, 0x00u8, 0x01u8, 0x00u8, 0x00u8, 0x02u8, 0x02u8, 0x44u8, 0x01u8, 0x00u8, 0x3bu8];
    assert(body@ =~= transparent_gif());
    OpenResponse { status: 200, content_type: "image/gif", body, record: open_event(token, key) }
}

/// Decides a click request: the delivery id and the URL to redirect to, or
/// `None` for a bad request.
pub fn click_event(token: &str, key: &Option<[u8; 32]>) -> (link: Option<(String, String)>)
    ensures
        match link { Some((d, u)) => Some((d@, u@)), None => None } == clicked_link(
            token@,
            match key { Some(k) => Some(k@), None => None },
        ),
{
    match key {
        Some(k) => match verify_tracking_token(token, k) {
            Some((d, Some(u))) => Some((d, u)),
            _ => None,
        },
        None => None,
    }
}

/// A recorded tracking event.
#[derive(Debug, Clone)]
pub struct TrackingEventRow {
    pub id: String,
    pub delivery_log_id: Option<String>,
    pub event_type: String,
    pub url: Option<String>,
    pub created_at: String,
}

/// The values a tracking event is inserted with: its id, the delivery log
/// id, the event type and the URL (empty when there is none).
pub fn tracking_event_values(id: u128, delivery_log_id: &str, event_type: &str, url: Option<&str>) -> (values:
    Vec<String>)
    ensures
        values@.len() == 4,
        values@[0]@ == uuid_hyphenated(id),
        values@[1]@ == delivery_log_id@,
        values@[2]@ == event_type@,
        values@[3]@ == match url { Some(u) => u@, None => Seq::<char>::empty() },
{
    let mut values: Vec<String> = Vec::new();
    values.push(uuid_to_string(id));
    values.push(String::from_str(delivery_log_id));
    values.push(String::from_str(event_type));
    match url {
        Some(u) => values.push(String::from_str(u)),
        None => values.push(String::new()),
    }
    values
}

} // verus!
