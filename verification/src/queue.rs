//! The delivery queue: task rows, their statuses and what a failure does to them.
use vstd::prelude::*;

use crate::ids::{parse_uuid_field, spec_uuid_parse, uuid_field};
use crate::ingest::strings;
use crate::json::{parse_json, spec_json_error, spec_json_parse_str};
use crate::text::{decimal, push_decimal};

verus! {

/// The status of a delivery task.
#[derive(Debug, Clone, Copy, PartialEq, Eq, Structural)]
pub enum TaskStatus {
    Pending,
    Processing,
    Completed,
    DeadLetter,
}

/// The status as stored in the `delivery_task` table.
pub open spec fn status_text(s: TaskStatus) -> Seq<char> {
    match s {
        TaskStatus::Pending => "pending"@,
        TaskStatus::Processing => "processing"@,
        TaskStatus::Completed => "completed"@,
        TaskStatus::DeadLetter => "dead_letter"@,
    }
}

impl TaskStatus {
    /// The status as stored in the `delivery_task` table.
    pub fn as_str(&self) -> (s: &'static str)
        ensures
            s@ == status_text(*self),
    {
        match self {
            TaskStatus::Pending => "pending",
            TaskStatus::Processing => "processing",
            TaskStatus::Completed => "completed",
            TaskStatus::DeadLetter => "dead_letter",
        }
    }
}

/// A row of the `delivery_task` table.
#[derive(Debug, Clone)]
pub struct TaskRow {
    pub id: u128,
    pub project_id: u128,
    pub event_name: String,
    pub recipient_id: u128,
    pub channel: String,
    pub contact_value: String,
    pub rendered_body: serde_json::Value,
    pub idempotency_key: Option<String>,
    pub rule_id: Option<u128>,
    pub status: String,
    pub attempt: i32,
    pub max_attempts: i32,
    pub error_message: Option<String>,
}

/// A delivery task handed to workers.
#[derive(Debug, Clone)]
pub struct DeliveryTask {
    pub id: u128,
    pub project_id: u128,
    pub event_name: String,
    pub recipient_id: u128,
    pub channel: String,
    pub rendered_body: serde_json::Value,
    pub contact_value: String,
    pub idempotency_key: Option<String>,
    pub attempt: u32,
    pub max_attempts: u32,
}

/// 4 to the power `e`.
pub open spec fn pow4(e: nat) -> nat
    decreases e,
{
    if e == 0 {
        1
    } else {
        4 * pow4((e - 1) as nat)
    }
}

/// Seconds before a retry after failed attempt `attempt`: 30 s times 4 to the
/// power `attempt - 1` (30 s, 2 min, 8 min, 32 min, ...), attempts below one
/// counting as one.
pub open spec fn backoff_secs(attempt: int) -> nat {
    30 * pow4(if attempt >= 1 { (attempt - 1) as nat } else { 0 })
}

/// What a failed attempt does to its task.
#[derive(Debug, Clone, Copy, PartialEq, Eq, Structural)]
pub enum FailureDisposition {
    /// Back to `pending`, to be retried after this many seconds.
    Requeue { backoff_secs: i64 },
    /// Out of attempts or not retryable: parked as `dead_letter`.
    DeadLetter,
}

/// Whether a failure requeues the task: it must be retryable and attempts must
/// remain.
pub open spec fn requeues(retryable: bool, attempt: i32, max_attempts: i32) -> bool {
    retryable && attempt < max_attempts
}

proof fn lemma_pow4_monotonic(a: nat, b: nat)
    requires
        a <= b,
    ensures
        pow4(a) <= pow4(b),
    decreases b,
{
    if a < b {
        lemma_pow4_monotonic(a, (b - 1) as nat);
    }
}

/// Going one attempt further multiplies the wait by four.
pub proof fn lemma_backoff_grows_fourfold(attempt: int)
    requires
        attempt >= 1,
    ensures
        backoff_secs(attempt + 1) == 4 * backoff_secs(attempt),
{
    assert(pow4(attempt as nat) == 4 * pow4((attempt - 1) as nat));
}

/// Decides what a failed attempt does: requeue with exponential backoff while
/// the failure is retryable and attempts remain, dead-letter otherwise.
/// The wait must fit in an `i64`, so attempts beyond the thirtieth that would
/// still be retried are left out.
pub fn failure_disposition(retryable: bool, attempt: i32, max_attempts: i32) -> (d: FailureDisposition)
    requires
        requeues(retryable, attempt, max_attempts) ==> attempt <= 30,
    ensures
        requeues(retryable, attempt, max_attempts) <==> (d is Requeue),
        d is Requeue ==> d->backoff_secs as int == backoff_secs(attempt as int),
{
    if retryable && attempt < max_attempts {
        let exponent: i32 = if attempt >= 1 { attempt - 1 } else { 0 };
        let mut secs: i64 = 30;
        let mut i: i32 = 0;
        proof {
            reveal_with_fuel(pow4, 31);
            assert(pow4(29) == 288230376151711744);
        }
        while i < exponent
            invariant
                0 <= i <= exponent <= 29,
                secs == 30 * pow4(i as nat),
                pow4(29) == 288230376151711744,
            decreases exponent - i,
        {
            proof {
                lemma_pow4_monotonic((i + 1) as nat, 29);
            }
            secs = secs * 4;
            i = i + 1;
        }
        FailureDisposition::Requeue { backoff_secs: secs }
    } else {
        FailureDisposition::DeadLetter
    }
}

/// The SQL update that records a failure with `disposition`; the error
/// message and the task id are bound as parameters.
pub fn mark_failed_statement(disposition: FailureDisposition) -> (sql: String)
    requires
        disposition is Requeue ==> disposition->backoff_secs >= 0,
    ensures
        disposition is Requeue ==> sql@ == "UPDATE delivery_task SET status = 'pending', error_message = ?, next_retry_at = datetime('now', '+"@
            + decimal(disposition->backoff_secs as nat) + " seconds'), updated_at = CURRENT_TIMESTAMP WHERE id = ?"@,
        (disposition is DeadLetter) ==> sql@ == "UPDATE delivery_task SET status = 'dead_letter', error_message = ?, updated_at = CURRENT_TIMESTAMP WHERE id = ?"@,
{
    match disposition {
        FailureDisposition::Requeue { backoff_secs } => {
            let mut sql = String::from_str(
                "UPDATE delivery_task SET status = 'pending', error_message = ?, next_retry_at = datetime('now', '+",
            );
            push_decimal(&mut sql, backoff_secs as u64);
            sql.append(" seconds'), updated_at = CURRENT_TIMESTAMP WHERE id = ?");
            sql
        },
        FailureDisposition::DeadLetter => String::from_str(
            "UPDATE delivery_task SET status = 'dead_letter', error_message = ?, updated_at = CURRENT_TIMESTAMP WHERE id = ?",
        ),
    }
}

/// A pending row as `claim_pending` hands it out: `processing`, one more attempt.
pub fn claimed(row: TaskRow) -> (c: TaskRow)
    requires
        row.attempt < i32::MAX,
    ensures
        c.attempt == row.attempt + 1,
        c.status@ == "processing"@,
        c.id == row.id,
        c.project_id == row.project_id,
        c.event_name == row.event_name,
        c.recipient_id == row.recipient_id,
        c.channel == row.channel,
        c.contact_value == row.contact_value,
        c.idempotency_key == row.idempotency_key,
        c.rule_id == row.rule_id,
        c.max_attempts == row.max_attempts,
        c.error_message == row.error_message,
        c.rendered_body == row.rendered_body,
{
    let mut row = row;
    row.attempt = row.attempt + 1;
    row.status = String::from_str("processing");
    row
}

/// The worker's view of a claimed row; attempt counts are reinterpreted as
/// unsigned, as `as u32` does.
pub fn task_row_to_delivery_task(row: &TaskRow) -> (t: DeliveryTask)
    ensures
        t.id == row.id,
        t.project_id == row.project_id,
        t.event_name@ == row.event_name@,
        t.recipient_id == row.recipient_id,
        t.channel@ == row.channel@,
        t.contact_value@ == row.contact_value@,
        t.idempotency_key == row.idempotency_key,
        t.attempt == row.attempt as u32,
        t.max_attempts == row.max_attempts as u32,
        t.rendered_body == row.rendered_body,
{
    DeliveryTask {
        id: row.id,
        project_id: row.project_id,
        event_name: row.event_name.clone(),
        recipient_id: row.recipient_id,
        channel: row.channel.clone(),
        rendered_body: row.rendered_body.clone(),
        contact_value: row.contact_value.clone(),
        idempotency_key: row.idempotency_key.clone(),
        attempt: row.attempt as u32,
        max_attempts: row.max_attempts as u32,
    }
}

/// A `delivery_task` row as the database returns it: ids and the body as text.
#[derive(Debug, Clone)]
pub struct TaskRaw {
    pub id: String,
    pub project_id: String,
    pub event_name: String,
    pub recipient_id: String,
    pub channel: String,
    pub contact_value: String,
    pub rendered_body: String,
    pub idempotency_key: Option<String>,
    pub rule_id: Option<String>,
    pub status: String,
    pub attempt: i32,
    pub max_attempts: i32,
    pub error_message: Option<String>,
}

/// The first field of a raw task row that cannot be read, with its error:
/// the ids, then the body, then the rule id, in that order.
pub open spec fn task_raw_error(raw: TaskRaw) -> Option<Seq<char>> {
    if uuid_field("invalid id UUID: "@, raw.id@) is Err {
        Some(uuid_field("invalid id UUID: "@, raw.id@)->Err_0)
    } else if uuid_field("invalid project_id UUID: "@, raw.project_id@) is Err {
        Some(uuid_field("invalid project_id UUID: "@, raw.project_id@)->Err_0)
    } else if uuid_field("invalid recipient_id UUID: "@, raw.recipient_id@) is Err {
        Some(uuid_field("invalid recipient_id UUID: "@, raw.recipient_id@)->Err_0)
    } else if spec_json_error(raw.rendered_body@) is Some {
        Some("invalid rendered_body JSON: "@ + spec_json_error(raw.rendered_body@)->0)
    } else {
        match raw.rule_id {
            Some(r) => if uuid_field("invalid rule_id UUID: "@, r@) is Err {
                Some(uuid_field("invalid rule_id UUID: "@, r@)->Err_0)
            } else {
                None
            },
            None => None,
        }
    }
}

impl TaskRaw {
    /// Reads the row: its ids parsed, its body parsed as JSON.
    pub fn into_row(self) -> (res: Result<TaskRow, String>)
        ensures
            res is Ok <==> task_raw_error(self) is None,
            res matches Err(e) ==> task_raw_error(self) == Some(e@),
            res matches Ok(row) ==> {
                &&& spec_uuid_parse(self.id@) == Ok::<u128, Seq<char>>(row.id)
                &&& spec_uuid_parse(self.project_id@) == Ok::<u128, Seq<char>>(row.project_id)
                &&& spec_uuid_parse(self.recipient_id@) == Ok::<u128, Seq<char>>(row.recipient_id)
                &&& (match self.rule_id {
                    Some(r) => spec_uuid_parse(r@) matches Ok(u) && row.rule_id == Some(u),
                    None => row.rule_id is None,
                })
                &&& row.event_name == self.event_name
                &&& row.channel == self.channel
                &&& row.contact_value == self.contact_value
                &&& row.idempotency_key == self.idempotency_key
                &&& row.status == self.status
                &&& row.attempt == self.attempt
                &&& row.max_attempts == self.max_attempts
                &&& row.error_message == self.error_message
                &&& row.rendered_body == spec_json_parse_str(self.rendered_body@)
            },
    {
        proof {
            reveal_strlit("invalid id UUID: ");
            reveal_strlit("invalid project_id UUID: ");
            reveal_strlit("invalid recipient_id UUID: ");
            reveal_strlit("invalid rendered_body JSON: ");
            reveal_strlit("invalid rule_id UUID: ");
        }
        let id = match parse_uuid_field("invalid id UUID: ", self.id.as_str()) {
            Ok(u) => u,
            Err(e) => return Err(e),
        };
        let project_id = match parse_uuid_field("invalid project_id UUID: ", self.project_id.as_str()) {
            Ok(u) => u,
            Err(e) => return Err(e),
        };
        let recipient_id = match parse_uuid_field("invalid recipient_id UUID: ", self.recipient_id.as_str()) {
            Ok(u) => u,
            Err(e) => return Err(e),
        };
        let rendered_body = match parse_json(self.rendered_body.as_str()) {
            Ok(v) => v,
            Err(e) => {
                let mut m = String::from_str("invalid rendered_body JSON: ");
                m.append(e.as_str());
                return Err(m);
            },
        };
        let rule_id = match &self.rule_id {
            Some(r) => match parse_uuid_field("invalid rule_id UUID: ", r.as_str()) {
                Ok(u) => Some(u),
                Err(e) => return Err(e),
            },
            None => None,
        };
        Ok(TaskRow {
            id,
            project_id,
            event_name: self.event_name,
            recipient_id,
            channel: self.channel,
            contact_value: self.contact_value,
            rendered_body,
            idempotency_key: self.idempotency_key,
            rule_id,
            status: self.status,
            attempt: self.attempt,
            max_attempts: self.max_attempts,
            error_message: self.error_message,
        })
    }
}

/// The ids of `ids`, each in single quotes, separated by `, `.
pub open spec fn quoted_list(ids: Seq<Seq<char>>) -> Seq<char>
    decreases ids.len(),
{
    if ids.len() == 0 {
        seq![]
    } else if ids.len() == 1 {
        seq!['\''] + ids[0] + seq!['\'']
    } else {
        quoted_list(ids.drop_last()) + seq![',', ' ', '\''] + ids.last() + seq!['\'']
    }
}

/// The update that claims the selected pending tasks: `processing`, one more
/// attempt, for exactly the listed ids.
pub fn claim_statement(ids: &Vec<String>) -> (sql: String)
    ensures
        sql@ == "UPDATE delivery_task SET status = 'processing', attempt = attempt + 1, updated_at = CURRENT_TIMESTAMP WHERE id IN ("@
            + quoted_list(strings(ids@)) + ")"@,
{
    let mut list = String::new();
    let mut i: usize = 0;
    proof {
        reveal_strlit("'");
        reveal_strlit(", '");
    }
    while i < ids.len()
        invariant
            i <= ids@.len(),
            list@ == quoted_list(strings(ids@).take(i as int)),
        decreases ids@.len() - i,
    {
        let ghost before = list@;
        proof {
            reveal_strlit("'");
            reveal_strlit(", '");
            assert("'"@ =~= seq!['\'']);
            assert(", '"@ =~= seq![',', ' ', '\'']);
        }
        if i == 0 {
            list.append("'");
        } else {
            list.append(", '");
        }
        list.append(ids[i].as_str());
        list.append("'");
        proof {
            let t = strings(ids@).take(i + 1);
            assert(t.drop_last() =~= strings(ids@).take(i as int));
            assert(t.last() == ids@[i as int]@);
            if i == 0 {
                assert(t.len() == 1);
                assert(list@ =~= seq!['\''] + t[0] + seq!['\'']);
            } else {
                assert(list@ =~= before + seq![',', ' ', '\''] + t.last() + seq!['\'']);
            }
        }
        i = i + 1;
    }
    assert(strings(ids@).take(ids@.len() as int) =~= strings(ids@));
    let mut sql = String::from_str(
        "UPDATE delivery_task SET status = 'processing', attempt = attempt + 1, updated_at = CURRENT_TIMESTAMP WHERE id IN (",
    );
    sql.append(list.as_str());
    sql.append(")");
    sql
}

} // verus!
