//! Small byte-level codecs of outside crates: hex keys and HTTP header text.
use vstd::prelude::*;

use crate::crypto::bytes_view;

verus! {

/// The value of a hex digit byte (either case).
pub open spec fn hex_value(b: u8) -> Option<nat> {
    if 48 <= b <= 57 {
        Some((b - 48) as nat)
    } else if 97 <= b <= 102 {
        Some((b - 87) as nat)
    } else if 65 <= b <= 70 {
        Some((b - 55) as nat)
    } else {
        None
    }
}

/// Hex decoding: an even number of hex digits, two per byte, high nibble
/// first; anything else is rejected.
pub open spec fn hex_decoded(data: Seq<u8>) -> Option<Seq<u8>> {
    if data.len() % 2 == 1 || exists|i: int| 0 <= i < data.len() && hex_value(data[i]) is None {
        None
    } else {
        Some(
            Seq::new(
                data.len() / 2,
                |i: int| (hex_value(data[2 * i]).unwrap() * 16 + hex_value(data[2 * i + 1]).unwrap()) as u8,
            ),
        )
    }
}

/// `hex::decode` of the hex crate: odd lengths and non-hex bytes are errors.
#[verifier::external_body]
pub(crate) fn hex_decode(data: &[u8]) -> (res: Option<Vec<u8>>)
    ensures
        bytes_view(res) == hex_decoded(data@),
{
    hex::decode(data).ok()
}

/// Whether a header byte is visible ASCII or a tab.
pub open spec fn is_visible_header_byte(b: u8) -> bool {
    b == 9 || (32 <= b && b < 127)
}

/// `HeaderValue::from_bytes(raw)` then `to_str()` of the http crate: the text
/// of a header whose bytes are all visible ASCII (or tabs); anything else is
/// refused.
#[verifier::external_body]
pub(crate) fn header_to_str(raw: &[u8]) -> (text: Option<String>)
    ensures
        text is Some <==> forall|i: int| 0 <= i < raw@.len() ==> is_visible_header_byte(raw@[i]),
        text matches Some(t) ==> t@ == Seq::new(raw@.len(), |i: int| raw@[i] as char),
{
    match http::HeaderValue::from_bytes(raw) {
        Ok(h) => match h.to_str() {
            Ok(text) => Some(text.to_string()),
            Err(_) => None,
        },
        Err(_) => None,
    }
}

} // verus!
