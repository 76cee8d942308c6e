//! The delivery log: its entries, and the SQL of inserts, filtered listing and counting.
use vstd::prelude::*;

use crate::ids::{parse_uuid_field, spec_uuid_parse, uuid_field, uuid_hyphenated, uuid_to_string};
use crate::text::{decimal, push_decimal, str_eq};

verus! {

/// The view of an optional string slice.
pub open spec fn opt_str(s: Option<&str>) -> Option<Seq<char>> {
    match s {
        Some(x) => Some(x@),
        None => None,
    }
}

/// The optional status and event filters appended to a `WHERE project_id = ?`.
pub open spec fn log_filters(status: Option<Seq<char>>, event_name: Option<Seq<char>>) -> Seq<char> {
    (if status is Some { " AND status = ?"@ } else { ""@ }) + (if event_name is Some {
        " AND event_name = ?"@
    } else {
        ""@
    })
}

/// The bound parameters of a filtered query: the project id, then each filter
/// that is present, in order.
pub open spec fn log_params(
    project_id: u128,
    status: Option<Seq<char>>,
    event_name: Option<Seq<char>>,
) -> Seq<Seq<char>> {
    let p = seq![uuid_hyphenated(project_id)];
    let p = match status {
        Some(s) => p.push(s),
        None => p,
    };
    match event_name {
        Some(e) => p.push(e),
        None => p,
    }
}

/// The view of a list of strings.
pub open spec fn strings_view(v: Seq<String>) -> Seq<Seq<char>> {
    v.map_values(|s: String| s@)
}

fn push_filters(
    sql: &mut String,
    params: &mut Vec<String>,
    status: Option<&str>,
    event_name: Option<&str>,
)
    ensures
        final(sql)@ == old(sql)@ + log_filters(opt_str(status), opt_str(event_name)),
        strings_view(final(params)@) == {
            let p = strings_view(old(params)@);
            let p = match opt_str(status) {
                Some(s) => p.push(s),
                None => p,
            };
            match opt_str(event_name) {
                Some(e) => p.push(e),
                None => p,
            }
        },
{
    let ghost sql0 = sql@;
    let ghost params0 = strings_view(params@);
    proof {
        reveal_strlit("");
    }
    assert(""@ =~= Seq::<char>::empty());
    match status {
        Some(s) => {
            sql.append(" AND status = ?");
            params.push(String::from_str(s));
        },
        None => {},
    }
    match event_name {
        Some(e) => {
            sql.append(" AND event_name = ?");
            params.push(String::from_str(e));
        },
        None => {},
    }
    assert(sql@ =~= sql0 + log_filters(opt_str(status), opt_str(event_name)));
    assert(strings_view(params@) =~= {
        let p = params0;
        let p = match opt_str(status) {
            Some(s) => p.push(s),
            None => p,
        };
        match opt_str(event_name) {
            Some(e) => p.push(e),
            None => p,
        }
    });
}

/// The query listing a project's delivery log, newest first, one page.
pub fn list_logs_query(
    project_id: u128,
    status: Option<&str>,
    event_name: Option<&str>,
    limit: u64,
    offset: u64,
) -> (q: (String, Vec<String>))
    ensures
        q.0@ == "SELECT id, project_id, event_name, recipient_id, channel, status, error_message, attempts, created_at, delivered_at FROM delivery_log WHERE project_id = ?"@
            + log_filters(opt_str(status), opt_str(event_name)) + " ORDER BY created_at DESC LIMIT "@
            + decimal(limit as nat) + " OFFSET "@ + decimal(offset as nat),
        strings_view(q.1@) == log_params(project_id, opt_str(status), opt_str(event_name)),
{
    let mut sql = String::from_str(
        "SELECT id, project_id, event_name, recipient_id, channel, status, error_message, attempts, created_at, delivered_at FROM delivery_log WHERE project_id = ?",
    );
    let mut params: Vec<String> = Vec::new();
    params.push(uuid_to_string(project_id));
    assert(strings_view(params@) =~= seq![uuid_hyphenated(project_id)]);
    push_filters(&mut sql, &mut params, status, event_name);
    sql.append(" ORDER BY created_at DESC LIMIT ");
    push_decimal(&mut sql, limit);
    sql.append(" OFFSET ");
    push_decimal(&mut sql, offset);
    (sql, params)
}

/// The query counting a project's delivery log entries under the same filters.
pub fn count_logs_query(project_id: u128, status: Option<&str>, event_name: Option<&str>) -> (q: (
    String,
    Vec<String>,
))
    ensures
        q.0@ == "SELECT COUNT(*) as cnt FROM delivery_log WHERE project_id = ?"@ + log_filters(
            opt_str(status),
            opt_str(event_name),
        ),
        strings_view(q.1@) == log_params(project_id, opt_str(status), opt_str(event_name)),
{
    let mut sql = String::from_str("SELECT COUNT(*) as cnt FROM delivery_log WHERE project_id = ?");
    let mut params: Vec<String> = Vec::new();
    params.push(uuid_to_string(project_id));
    assert(strings_view(params@) =~= seq![uuid_hyphenated(project_id)]);
    push_filters(&mut sql, &mut params, status, event_name);
    (sql, params)
}

/// The insert of a log entry: `delivered_at` is stamped only for the
/// `delivered` status.
pub fn insert_log_statement(status: &str) -> (sql: String)
    ensures
        sql@ == "INSERT INTO delivery_log (id, project_id, event_name, recipient_id, channel, status, error_message, attempts, delivered_at) VALUES (?, ?, ?, ?, ?, ?, ?, ?, "@
            + (if status@ == "delivered"@ { "CURRENT_TIMESTAMP"@ } else { "NULL"@ }) + ")"@,
{
    let delivered_at = if str_eq(status, "delivered") { "CURRENT_TIMESTAMP" } else { "NULL" };
    let mut sql = String::from_str(
        "INSERT INTO delivery_log (id, project_id, event_name, recipient_id, channel, status, error_message, attempts, delivered_at) VALUES (?, ?, ?, ?, ?, ?, ?, ?, ",
    );
    sql.append(delivered_at);
    sql.append(")");
    sql
}

/// An entry of the delivery log.
#[derive(Debug, Clone)]
pub struct DeliveryLogRow {
    pub id: u128,
    pub project_id: u128,
    pub event_name: String,
    pub recipient_id: u128,
    pub channel: String,
    pub status: String,
    pub error_message: Option<String>,
    pub attempts: i32,
    pub created_at: String,
    pub delivered_at: Option<String>,
}

/// A delivery log entry as the database returns it: ids as text.
#[derive(Debug, Clone)]
pub struct DeliveryLogRaw {
    pub id: String,
    pub project_id: String,
    pub event_name: String,
    pub recipient_id: String,
    pub channel: String,
    pub status: String,
    pub error_message: Option<String>,
    pub attempts: i32,
    pub created_at: String,
    pub delivered_at: Option<String>,
}

/// The error of the first id of a raw entry that is no UUID, if any.
pub open spec fn log_raw_error(raw: DeliveryLogRaw) -> Option<Seq<char>> {
    if uuid_field("invalid UUID: "@, raw.id@) is Err {
        Some(uuid_field("invalid UUID: "@, raw.id@)->Err_0)
    } else if uuid_field("invalid UUID: "@, raw.project_id@) is Err {
        Some(uuid_field("invalid UUID: "@, raw.project_id@)->Err_0)
    } else if uuid_field("invalid UUID: "@, raw.recipient_id@) is Err {
        Some(uuid_field("invalid UUID: "@, raw.recipient_id@)->Err_0)
    } else {
        None
    }
}

impl DeliveryLogRaw {
    /// Reads the entry, its ids parsed.
    pub fn into_row(self) -> (res: Result<DeliveryLogRow, String>)
        ensures
            res is Ok <==> log_raw_error(self) is None,
            res matches Err(e) ==> log_raw_error(self) == Some(e@),
            res matches Ok(row) ==> {
                &&& spec_uuid_parse(self.id@) == Ok::<u128, Seq<char>>(row.id)
                &&& spec_uuid_parse(self.project_id@) == Ok::<u128, Seq<char>>(row.project_id)
                &&& spec_uuid_parse(self.recipient_id@) == Ok::<u128, Seq<char>>(row.recipient_id)
                &&& row.event_name == self.event_name
                &&& row.channel == self.channel
                &&& row.status == self.status
                &&& row.error_message == self.error_message
                &&& row.attempts == self.attempts
                &&& row.created_at == self.created_at
                &&& row.delivered_at == self.delivered_at
            },
    {
        proof {
            reveal_strlit("invalid UUID: ");
        }
        let id = match parse_uuid_field("invalid UUID: ", self.id.as_str()) {
            Ok(u) => u,
            Err(e) => return Err(e),
        };
        let project_id = match parse_uuid_field("invalid UUID: ", self.project_id.as_str()) {
            Ok(u) => u,
            Err(e) => return Err(e),
        };
        let recipient_id = match parse_uuid_field("invalid UUID: ", self.recipient_id.as_str()) {
            Ok(u) => u,
            Err(e) => return Err(e),
        };
        Ok(DeliveryLogRow {
            id,
            project_id,
            event_name: self.event_name,
            recipient_id,
            channel: self.channel,
            status: self.status,
            error_message: self.error_message,
            attempts: self.attempts,
            created_at: self.created_at,
            delivered_at: self.delivered_at,
        })
    }
}

} // verus!
