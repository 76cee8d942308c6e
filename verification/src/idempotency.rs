//! Idempotency keys for delivery de-duplication.
use vstd::prelude::*;

use crate::ids::{uuid_hyphenated, uuid_to_string};

verus! {

/// `event_name:recipient_id:channel`, then `:client_key` when one is given.
pub open spec fn idempotency_key(
    event_name: Seq<char>,
    recipient_id: u128,
    channel: Seq<char>,
    client_key: Option<Seq<char>>,
) -> Seq<char> {
    let base = event_name + seq![':'] + uuid_hyphenated(recipient_id) + seq![':'] + channel;
    match client_key {
        Some(k) => base + seq![':'] + k,
        None => base,
    }
}

/// Builds the compound idempotency key of a delivery.
pub fn make_idempotency_key(
    event_name: &str,
    recipient_id: u128,
    channel: &str,
    client_key: Option<&str>,
) -> (key: String)
    ensures
        key@ == idempotency_key(
            event_name@,
            recipient_id,
            channel@,
            match client_key { Some(k) => Some(k@), None => None },
        ),
{
    proof {
        reveal_strlit(":");
    }
    let mut key = String::from_str(event_name);
    key.append(":");
    key.append(uuid_to_string(recipient_id).as_str());
    key.append(":");
    key.append(channel);
    match client_key {
        Some(k) => {
            key.append(":");
            key.append(k);
        },
        None => {},
    }
    assert(key@ =~= idempotency_key(
        event_name@,
        recipient_id,
        channel@,
        match client_key { Some(k) => Some(k@), None => None },
    ));
    key
}

/// A client key only extends the key a delivery would have without one: it
/// is that key followed by `:` and the client key.
pub proof fn lemma_client_key_extends(
    event_name: Seq<char>,
    recipient_id: u128,
    channel: Seq<char>,
    client_key: Seq<char>,
)
    ensures
        idempotency_key(event_name, recipient_id, channel, Some(client_key)) == idempotency_key(
            event_name,
            recipient_id,
            channel,
            None,
        ) + seq![':'] + client_key,
{
}

} // verus!
