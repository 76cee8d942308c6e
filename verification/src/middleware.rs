//! Middleware attached to pipeline rules: the rows the database returns and
//! how their stored configuration and flags are read and written.
use vstd::prelude::*;

use crate::ids::{parse_uuid_field, spec_uuid_parse, uuid_field};
use crate::json::{parse_json, spec_json_error, spec_json_parse_str, ParsedJson};

verus! {

/// A middleware of a pipeline rule; its configuration is kept as JSON text.
#[derive(Debug, Clone)]
pub struct MiddlewareRow {
    pub id: u128,
    pub rule_id: u128,
    pub middleware_name: String,
    pub config: String,
    pub priority: i32,
    pub enabled: bool,
}

impl MiddlewareRow {
    /// Parses the stored configuration as JSON; the error is serde_json's
    /// message.
    pub fn config_value(&self) -> (res: ParsedJson)
        ensures
            res is Ok <==> spec_json_error(self.config@) is None,
            res matches Err(e) ==> spec_json_error(self.config@) == Some(e@),
    {
        parse_json(self.config.as_str())
    }
}

/// A middleware as the database returns it: ids as text, the flag as an
/// integer.
#[derive(Debug, Clone)]
pub struct MiddlewareRaw {
    pub id: String,
    pub rule_id: String,
    pub middleware_name: String,
    pub config: String,
    pub priority: i32,
    pub enabled: i32,
}

impl MiddlewareRaw {
    /// Reads the row: ids parsed, any non-zero flag is enabled.
    pub fn into_row(self) -> (res: Result<MiddlewareRow, String>)
        ensures
            match res {
                Ok(row) => spec_uuid_parse(self.id@) == Ok::<u128, Seq<char>>(row.id)
                    && spec_uuid_parse(self.rule_id@) == Ok::<u128, Seq<char>>(row.rule_id)
                    && row.middleware_name == self.middleware_name && row.config == self.config
                    && row.priority == self.priority && row.enabled == (self.enabled != 0),
                Err(e) => if uuid_field("invalid UUID: "@, self.id@) is Err {
                    uuid_field("invalid UUID: "@, self.id@) == Err::<u128, Seq<char>>(e@)
                } else {
                    uuid_field("invalid UUID: "@, self.rule_id@) == Err::<u128, Seq<char>>(e@)
                },
            },
    {
        proof {
            reveal_strlit("invalid UUID: ");
        }
        let id = match parse_uuid_field("invalid UUID: ", self.id.as_str()) {
            Ok(u) => u,
            Err(e) => return Err(e),
        };
        let rule_id = match parse_uuid_field("invalid UUID: ", self.rule_id.as_str()) {
            Ok(u) => u,
            Err(e) => return Err(e),
        };
        Ok(MiddlewareRow {
            id,
            rule_id,
            middleware_name: self.middleware_name,
            config: self.config,
            priority: self.priority,
            enabled: self.enabled != 0,
        })
    }
}

/// The listing of a rule's middleware, by ascending priority: only the
/// enabled ones, or all of them.
pub fn list_statement(enabled_only: bool) -> (sql: &'static str)
    ensures
        enabled_only ==> sql@ == "SELECT id, rule_id, middleware_name, config, priority, enabled FROM pipeline_middleware WHERE rule_id = ? AND enabled = 1 ORDER BY priority ASC"@,
        !enabled_only ==> sql@ == "SELECT id, rule_id, middleware_name, config, priority, enabled FROM pipeline_middleware WHERE rule_id = ? ORDER BY priority ASC"@,
{
    if enabled_only {
        "SELECT id, rule_id, middleware_name, config, priority, enabled FROM pipeline_middleware WHERE rule_id = ? AND enabled = 1 ORDER BY priority ASC"
    } else {
        "SELECT id, rule_id, middleware_name, config, priority, enabled FROM pipeline_middleware WHERE rule_id = ? ORDER BY priority ASC"
    }
}

/// The stored form of the enabled flag: 1 or 0.
pub fn enabled_flag(enabled: bool) -> (flag: i32)
    ensures
        flag == (if enabled { 1i32 } else { 0i32 }),
{
    if enabled { 1 } else { 0 }
}

/// Writing a flag and reading it back gives the flag.
pub proof fn lemma_flag_roundtrip(enabled: bool)
    ensures
        ((if enabled { 1i32 } else { 0i32 }) != 0) == enabled,
{
}

} // verus!
