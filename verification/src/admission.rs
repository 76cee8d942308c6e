//! What the event endpoints refuse before any work, and in which order: a
//! key without the `ingest` scope (403), then, for broadcasts, a key over its
//! rate (429), then an event the project has not configured (404).
use vstd::prelude::*;

use crate::auth::{scope_grants, AuthContext, AuthError};
use crate::rate_limit::{checked, grants_of, limit_exceeded_message, limit_message, RateLimiter};

verus! {

/// Why an event request is refused.
#[derive(Debug, Clone)]
pub enum Refusal {
    /// The key lacks the scope (403).
    Forbidden(AuthError),
    /// The key is over its rate; the seconds to wait (429).
    RateLimited(u64),
    /// No event of this name is configured; the event's name (404).
    EventNotFound(String),
}

/// The HTTP status of a refusal.
pub open spec fn refusal_status(r: Refusal) -> u16 {
    match r {
        Refusal::Forbidden(_) => 403,
        Refusal::RateLimited(_) => 429,
        Refusal::EventNotFound(_) => 404,
    }
}

impl Refusal {
    /// The HTTP status of the refusal.
    pub fn status(&self) -> (s: u16)
        ensures
            s == refusal_status(*self),
    {
        match self {
            Refusal::Forbidden(_) => 403,
            Refusal::RateLimited(_) => 429,
            Refusal::EventNotFound(_) => 404,
        }
    }

    /// The answer to a rate-limited or unknown-event request; a forbidden
    /// one is answered with its authorization error.
    pub fn message(&self) -> (m: Option<String>)
        ensures
            match *self {
                Refusal::Forbidden(_) => m is None,
                Refusal::RateLimited(n) => m matches Some(s) && s@ == limit_message(n),
                Refusal::EventNotFound(name) => m matches Some(s) && s@ == "Event not found: "@ + name@,
            },
    {
        match self {
            Refusal::Forbidden(_) => None,
            Refusal::RateLimited(n) => Some(limit_exceeded_message(*n)),
            Refusal::EventNotFound(name) => {
                let mut m = String::from_str("Event not found: ");
                m.append(name.as_str());
                Some(m)
            },
        }
    }
}

/// The refusal a key without `required` scope gets.
pub open spec fn lacks_scope(auth: AuthContext, required: Seq<char>, res: Result<(), Refusal>) -> bool {
    (res matches Err(Refusal::Forbidden(AuthError::InsufficientScope { required: r, actual: a }))
        && r@ == required && a@ == auth.scope@)
}

/// Admits an ingestion: refused with 403 unless the key has the `ingest`
/// scope.
pub fn admit_ingest(auth: &AuthContext) -> (res: Result<(), Refusal>)
    ensures
        res is Ok <==> scope_grants(auth.scope@, "ingest"@),
        res is Err ==> lacks_scope(*auth, "ingest"@, res),
{
    match auth.require_scope("ingest") {
        Ok(()) => Ok(()),
        Err(e) => Err(Refusal::Forbidden(e)),
    }
}

/// Admits a broadcast: refused with 403, the limiter untouched, unless the
/// key has the `ingest` scope; otherwise the key's request is checked
/// against the limiter, and refused with 429 and the seconds to wait when
/// the limiter refuses it.
pub fn admit_broadcast(auth: &AuthContext, limiter: &mut RateLimiter) -> (res: Result<(), Refusal>)
    requires
        old(limiter).well_formed(),
    ensures
        final(limiter).well_formed(),
        !scope_grants(auth.scope@, "ingest"@) ==> (lacks_scope(*auth, "ingest"@, res) && *final(limiter)
            == *old(limiter)),
        scope_grants(auth.scope@, "ingest"@) ==> {
            let (grants, verdict) = checked(
                old(limiter).grants(),
                old(limiter).max_requests(),
                old(limiter).window_secs(),
                auth.api_key_id,
                final(limiter).last_now(),
            );
            &&& old(limiter).last_now() <= final(limiter).last_now()
            &&& final(limiter).grants() == grants
            &&& (verdict is Ok <==> res is Ok)
            &&& (verdict matches Err(n) ==> res == Err::<(), Refusal>(Refusal::RateLimited(n)))
            &&& (verdict is Ok ==> final(limiter).history() == old(limiter).history().insert(
                auth.api_key_id,
                grants_of(old(limiter).history(), auth.api_key_id).push(final(limiter).last_now()),
            ))
            &&& (verdict is Err ==> final(limiter).history() == old(limiter).history())
        },
{
    match auth.require_scope("ingest") {
        Err(e) => Err(Refusal::Forbidden(e)),
        Ok(()) => match limiter.check(auth.api_key_id) {
            Ok(()) => Ok(()),
            Err(n) => Err(Refusal::RateLimited(n)),
        },
    }
}

/// The event an endpoint works on: the one found, or a 404 naming it.
pub fn event_found<T>(name: &str, found: Option<T>) -> (res: Result<T, Refusal>)
    ensures
        found matches Some(row) ==> res == Ok::<T, Refusal>(row),
        found is None ==> (res matches Err(Refusal::EventNotFound(n)) && n@ == name@),
{
    match found {
        Some(row) => Ok(row),
        None => Err(Refusal::EventNotFound(String::from_str(name))),
    }
}

} // verus!
