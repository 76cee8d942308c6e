//! The decisions a worker takes while delivering a task: which credentials to
//! hand the transport, what a send outcome is logged as, and what happens to
//! the queued task afterwards.
use vstd::prelude::*;

use crate::ids::{uuid_hyphenated, uuid_to_string};

verus! {

/// What looking up a channel credential gave.
pub enum CredentialLookup {
    /// No encryption key is configured, so no lookup was made.
    NoKey,
    /// An enabled credential was found; its decrypted data.
    Found(serde_json::Value),
    /// No enabled credential exists for the project and channel.
    Missing,
    /// The lookup failed.
    Failed(String),
}

/// The credentials a transport is given.
pub enum CredentialChoice {
    /// The stored credential data.
    Stored(serde_json::Value),
    /// An empty JSON object.
    Empty,
}

/// Whether any field of a transport's credential schema is required.
pub fn any_required(required: &Vec<bool>) -> (r: bool)
    ensures
        r == exists|i: int| 0 <= i < required@.len() && required@[i],
{
    let mut i: usize = 0;
    while i < required.len()
        invariant
            i <= required@.len(),
            forall|j: int| 0 <= j < i ==> !required@[j],
        decreases required@.len() - i,
    {
        if required[i] {
            return true;
        }
        i = i + 1;
    }
    false
}

/// The error of a task whose channel has no transport.
pub fn transport_missing_error(channel: &str) -> (m: String)
    ensures
        m@ == "Transport not found for channel: "@ + channel@,
{
    let mut m = String::from_str("Transport not found for channel: ");
    m.append(channel);
    m
}

/// The error of a task whose transport needs credentials that are missing.
pub open spec fn missing_credentials_message(channel: Seq<char>, project_id: u128) -> Seq<char> {
    "No credentials configured for channel '"@ + channel + "' in project "@ + uuid_hyphenated(
        project_id,
    )
}

/// Chooses the credentials for a send: stored data when found; an empty
/// object when there is no key, when the lookup failed, or when nothing is
/// stored and the transport needs no credential field. Nothing stored for a
/// transport that needs credentials fails the task.
pub fn resolve_credentials(
    lookup: CredentialLookup,
    requires_credentials: bool,
    channel: &str,
    project_id: u128,
) -> (res: Result<CredentialChoice, String>)
    ensures
        lookup matches CredentialLookup::Found(data) ==> (res matches Ok(CredentialChoice::Stored(d))
            && d == data),
        lookup is Missing && requires_credentials ==> (res matches Err(m)
            && m@ == missing_credentials_message(channel@, project_id)),
        (lookup is NoKey || lookup is Failed || (lookup is Missing && !requires_credentials))
            ==> res matches Ok(CredentialChoice::Empty),
{
    match lookup {
        CredentialLookup::Found(data) => Ok(CredentialChoice::Stored(data)),
        CredentialLookup::Missing => {
            if requires_credentials {
                let mut m = String::from_str("No credentials configured for channel '");
                m.append(channel);
                m.append("' in project ");
                m.append(uuid_to_string(project_id).as_str());
                Err(m)
            } else {
                Ok(CredentialChoice::Empty)
            }
        },
        CredentialLookup::NoKey => Ok(CredentialChoice::Empty),
        CredentialLookup::Failed(_) => Ok(CredentialChoice::Empty),
    }
}

/// What a transport's send gave.
pub enum SendOutcome {
    /// The provider accepted the message.
    Delivered,
    /// The provider refused it.
    Failed { error: String, retryable: bool },
    /// The transport itself failed.
    TransportError(String),
}

/// How a send outcome is logged and what the worker does with the task.
pub struct DeliveryVerdict {
    /// Status written to the delivery log.
    pub log_status: &'static str,
    /// Error written to the delivery log.
    pub log_error: Option<String>,
    /// `Ok` marks the task completed; `Err(reason)` marks it failed.
    pub result: Result<(), String>,
}

/// Decides the log entry and task result of a send outcome: a delivery is
/// logged `delivered` and completes the task; a retryable refusal with
/// attempts left is logged `queued` and fails the task so that it is retried;
/// any other refusal is logged `failed` and completes the task; a transport
/// error is logged `failed` and fails the task.
pub fn delivery_verdict(outcome: SendOutcome, attempt: u32, max_attempts: u32) -> (v: DeliveryVerdict)
    ensures
        outcome is Delivered ==> v.log_status@ == "delivered"@ && v.log_error is None && v.result
            is Ok,
        outcome matches SendOutcome::Failed { error, retryable } ==> ({
            let again = retryable && attempt < max_attempts;
            &&& v.log_status@ == (if again { "queued"@ } else { "failed"@ })
            &&& (v.log_error matches Some(e) && e@ == error@)
            &&& (again ==> (v.result matches Err(r) && r@ == "Retryable failure: "@ + error@))
            &&& (!again ==> v.result is Ok)
        }),
        outcome matches SendOutcome::TransportError(e) ==> (v.log_status@ == "failed"@
            && (v.log_error matches Some(l) && l@ == e@) && (v.result matches Err(r) && r@ == e@)),
{
    match outcome {
        SendOutcome::Delivered => DeliveryVerdict { log_status: "delivered", log_error: None, result: Ok(()) },
        SendOutcome::Failed { error, retryable } => {
            if retryable && attempt < max_attempts {
                let mut reason = String::from_str("Retryable failure: ");
                reason.append(error.as_str());
                DeliveryVerdict { log_status: "queued", log_error: Some(error), result: Err(reason) }
            } else {
                DeliveryVerdict { log_status: "failed", log_error: Some(error), result: Ok(()) }
            }
        },
        SendOutcome::TransportError(e) => {
            let reason = e.clone();
            DeliveryVerdict { log_status: "failed", log_error: Some(e), result: Err(reason) }
        },
    }
}

/// The attempt count written to the delivery log: the task's attempt plus one.
pub fn logged_attempts(attempt: u32) -> (n: i32)
    requires
        attempt < u32::MAX,
    ensures
        n == (attempt + 1) as i32,
{
    (attempt + 1) as i32
}

/// What the worker loop does to a processed task.
pub enum QueueUpdate {
    /// Mark it completed.
    Complete,
    /// Mark it failed with this reason, as a retryable failure.
    Fail { reason: String, retryable: bool },
}

/// After processing: success completes the task; a failure is recorded as
/// retryable, so that the queue decides between a retry and the dead letter
/// by the attempts left.
pub fn queue_update(result: Result<(), String>) -> (u: QueueUpdate)
    ensures
        result is Ok <==> u is Complete,
        result matches Err(r) ==> (u matches QueueUpdate::Fail { reason, retryable } && reason@
            == r@ && retryable),
{
    match result {
        Ok(()) => QueueUpdate::Complete,
        Err(reason) => QueueUpdate::Fail { reason, retryable: true },
    }
}

/// How many pending tasks the worker claims at a time.
pub fn claim_batch_size() -> (n: u32)
    ensures
        n == 10,
{
    10
}

/// Seconds the worker waits before polling again after a claim that failed
/// or found nothing.
pub fn poll_interval_secs() -> (s: u64)
    ensures
        s == 2,
{
    2
}

/// What the worker does after claiming: wait a poll interval, or process
/// the claimed tasks.
#[derive(Debug, Clone, Copy, PartialEq, Eq)]
pub enum PollStep {
    Wait,
    Process,
}

/// After a claim: a failed claim or an empty batch waits a poll interval
/// (the failure is logged, nothing else happens); a non-empty batch is
/// processed.
pub fn after_claim(claimed: Result<usize, ()>) -> (step: PollStep)
    ensures
        step == PollStep::Process <==> (claimed matches Ok(n) && n > 0),
{
    match claimed {
        Ok(n) => if n > 0 { PollStep::Process } else { PollStep::Wait },
        Err(()) => PollStep::Wait,
    }
}

} // verus!
