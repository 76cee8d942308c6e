//! API keys: stored as the SHA-256 of the raw key, shown by a short prefix.
use vstd::prelude::*;
use vstd::string::StringSliceAdditionalSpecFns;
use vstd::utf8::{encode_utf8, is_char_boundary};

use crate::crypto::{sha256, spec_sha256};
use crate::ids::{new_uuid_v7, uuid_simple, uuid_to_simple_string};
use crate::text::{lower_hex, lower_hex_string};

verus! {

/// The stored hash of a raw key: lowercase hex of the SHA-256 of its bytes.
pub open spec fn api_key_hash(raw_key: Seq<u8>) -> Seq<char> {
    lower_hex(spec_sha256(raw_key))
}

/// Hashes a raw API key with SHA-256, written as lowercase hex (64 digits).
pub fn hash_api_key(raw_key: &str) -> (h: String)
    ensures
        h@ == api_key_hash(raw_key.spec_bytes()),
{
    let digest = sha256(raw_key.as_bytes());
    lower_hex_string(digest.as_slice())
}

/// The first sixteen bytes of a raw key (all of it when shorter), shown to
/// admins to tell keys apart.
pub fn key_prefix(raw_key: &str) -> (p: String)
    requires
        raw_key.len() <= 16 || is_char_boundary(raw_key.spec_bytes(), 16),
    ensures
        raw_key.len() <= 16 ==> p@ == raw_key@,
        raw_key.len() > 16 ==> encode_utf8(p@) == raw_key.spec_bytes().subrange(0, 16),
{
    if raw_key.len() <= 16 {
        String::from_str(raw_key)
    } else {
        let (head, _) = raw_key.split_at(16);
        let p = String::from_str(head);
        assert(head.spec_bytes() == encode_utf8(head@));
        assert(encode_utf8(p@) =~= raw_key.spec_bytes().subrange(0, 16));
        p
    }
}

/// The raw key given out for key id `id`: `nk_live_` and the id's simple form.
pub open spec fn raw_api_key(id: u128) -> Seq<char> {
    seq!['n', 'k', '_', 'l', 'i', 'v', 'e', '_'] + uuid_simple(id)
}

/// A fresh raw API key, `nk_live_` followed by the simple form of a new UUID.
pub fn new_raw_api_key() -> (k: String)
    ensures
        exists|id: u128| k@ == #[trigger] raw_api_key(id),
{
    proof {
        reveal_strlit("nk_live_");
    }
    let id = new_uuid_v7();
    let mut k = String::from_str("nk_live_");
    k.append(uuid_to_simple_string(id).as_str());
    assert(k@ =~= raw_api_key(id));
    k
}

} // verus!
