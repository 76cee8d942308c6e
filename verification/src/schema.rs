//! The tables of the schema: each table's columns (type, nullability, key,
//! uniqueness, default), foreign keys and indexes, as data the migrations
//! render into DDL. Every table the migration plan creates is defined here,
//! its foreign keys reference the tables the plan records for it, and every
//! key and index names a column of its table.
use vstd::prelude::*;

use crate::migration::{plan_columns, plan_names, plan_tables};
use crate::text::str_eq;

verus! {

/// The type of a column.
#[derive(Debug, Clone, Copy, PartialEq, Eq)]
pub enum ColumnKind {
    Uuid,
    /// A string of at most this many characters.
    Varchar(u32),
    Text,
    Json,
    JsonBinary,
    Boolean,
    Integer,
    Time,
    /// A timestamp with time zone.
    Timestamp,
}

/// The default of a column.
#[derive(Debug, Clone, Copy)]
pub enum ColumnDefault {
    NoDefault,
    /// The current timestamp.
    Now,
    Bool(bool),
    Int(i32),
    Text(&'static str),
}

/// A column of a table.
#[derive(Debug, Clone, Copy)]
pub struct Column {
    pub name: &'static str,
    pub kind: ColumnKind,
    pub nullable: bool,
    pub primary_key: bool,
    pub unique: bool,
    pub default: ColumnDefault,
}

/// A foreign key: `column` references `target(id)`; a deleted target
/// deletes the row (`cascade`) or nulls the column.
#[derive(Debug, Clone, Copy)]
pub struct ForeignKey {
    pub column: &'static str,
    pub target: &'static str,
    pub cascade: bool,
}

/// An index of a table over `columns`, in order.
#[derive(Debug, Clone)]
pub struct Index {
    pub name: &'static str,
    pub columns: Vec<&'static str>,
    pub unique: bool,
}

/// The view of an index.
#[verifier::ext_equal]
pub struct IndexSpec {
    pub name: &'static str,
    pub columns: Seq<&'static str>,
    pub unique: bool,
}

/// A table: its name, columns in order, foreign keys and indexes.
#[derive(Debug, Clone)]
pub struct TableDef {
    pub name: &'static str,
    pub columns: Vec<Column>,
    pub foreign_keys: Vec<ForeignKey>,
    pub indexes: Vec<Index>,
}

/// The view of a table.
#[verifier::ext_equal]
pub struct TableSpec {
    pub name: &'static str,
    pub columns: Seq<Column>,
    pub foreign_keys: Seq<ForeignKey>,
    pub indexes: Seq<IndexSpec>,
}

impl View for TableDef {
    type V = TableSpec;

    open spec fn view(&self) -> TableSpec {
        TableSpec {
            name: self.name,
            columns: self.columns@,
            foreign_keys: self.foreign_keys@,
            indexes: self.indexes@.map_values(
                |i: Index| IndexSpec { name: i.name, columns: i.columns@, unique: i.unique },
            ),
        }
    }
}

/// Whether `t` has a column named `c`.
pub open spec fn has_column(t: TableSpec, c: &'static str) -> bool {
    exists|k: int| 0 <= k < t.columns.len() && t.columns[k].name == c
}

/// Whether the first column of `t` is its only primary key, `id`, and
/// every foreign key and index of `t` names columns of it.
pub open spec fn table_well_formed(t: TableSpec) -> bool {
    &&& t.columns.len() > 0
    &&& t.columns[0].name == "id"
    &&& t.columns[0].primary_key
    &&& forall|k: int| 0 < k < t.columns.len() ==> !(#[trigger] t.columns[k]).primary_key
    &&& forall|i: int| 0 <= i < t.foreign_keys.len() ==> has_column(t, #[trigger] t.foreign_keys[i].column)
    &&& forall|i: int, j: int|
        0 <= i < t.indexes.len() && 0 <= j < t.indexes[i].columns.len() ==> has_column(
            t,
            #[trigger] t.indexes[i].columns[j],
        )
}

/// The tables the foreign keys of `t` reference, in order.
pub open spec fn fk_targets(t: TableSpec) -> Seq<Seq<char>> {
    t.foreign_keys.map_values(|f: ForeignKey| f.target@)
}

/// The `project` table.
pub open spec fn project_table() -> TableSpec {
    TableSpec {
        name: "project",
        columns: seq![
            Column { name: "id", kind: ColumnKind::Uuid, nullable: false, primary_key: true, unique: false, default: ColumnDefault::NoDefault },
            Column { name: "name", kind: ColumnKind::Varchar(255), nullable: false, primary_key: false, unique: false, default: ColumnDefault::NoDefault },
            Column { name: "default_locale", kind: ColumnKind::Varchar(10), nullable: false, primary_key: false, unique: false, default: ColumnDefault::Text("en") },
            Column { name: "settings", kind: ColumnKind::JsonBinary, nullable: false, primary_key: false, unique: false, default: ColumnDefault::Text("{}") },
            Column { name: "created_at", kind: ColumnKind::Timestamp, nullable: false, primary_key: false, unique: false, default: ColumnDefault::Now },
            Column { name: "updated_at", kind: ColumnKind::Timestamp, nullable: false, primary_key: false, unique: false, default: ColumnDefault::Now },
        ],
        foreign_keys: seq![],
        indexes: seq![
        ],
    }
}

/// The `event` table.
pub open spec fn event_table() -> TableSpec {
    TableSpec {
        name: "event",
        columns: seq![
            Column { name: "id", kind: ColumnKind::Uuid, nullable: false, primary_key: true, unique: false, default: ColumnDefault::NoDefault },
            Column { name: "project_id", kind: ColumnKind::Uuid, nullable: false, primary_key: false, unique: false, default: ColumnDefault::NoDefault },
            Column { name: "name", kind: ColumnKind::Varchar(255), nullable: false, primary_key: false, unique: false, default: ColumnDefault::NoDefault },
            Column { name: "category", kind: ColumnKind::Varchar(32), nullable: false, primary_key: false, unique: false, default: ColumnDefault::NoDefault },
            Column { name: "description", kind: ColumnKind::Text, nullable: false, primary_key: false, unique: false, default: ColumnDefault::Text("") },
            Column { name: "created_at", kind: ColumnKind::Timestamp, nullable: false, primary_key: false, unique: false, default: ColumnDefault::Now },
        ],
        foreign_keys: seq![ForeignKey { column: "project_id", target: "project", cascade: true }],
        indexes: seq![
            IndexSpec { name: "idx_event_project_name", columns: seq!["project_id", "name"], unique: true },
        ],
    }
}

/// The `pipeline_rule` table.
pub open spec fn pipeline_rule_table() -> TableSpec {
    TableSpec {
        name: "pipeline_rule",
        columns: seq![
            Column { name: "id", kind: ColumnKind::Uuid, nullable: false, primary_key: true, unique: false, default: ColumnDefault::NoDefault },
            Column { name: "event_id", kind: ColumnKind::Uuid, nullable: false, primary_key: false, unique: false, default: ColumnDefault::NoDefault },
            Column { name: "channel", kind: ColumnKind::Varchar(64), nullable: false, primary_key: false, unique: false, default: ColumnDefault::NoDefault },
            Column { name: "template_id", kind: ColumnKind::Uuid, nullable: false, primary_key: false, unique: false, default: ColumnDefault::NoDefault },
            Column { name: "enabled", kind: ColumnKind::Boolean, nullable: false, primary_key: false, unique: false, default: ColumnDefault::Bool(true) },
            Column { name: "conditions", kind: ColumnKind::JsonBinary, nullable: true, primary_key: false, unique: false, default: ColumnDefault::NoDefault },
            Column { name: "priority", kind: ColumnKind::Integer, nullable: false, primary_key: false, unique: false, default: ColumnDefault::Int(0) },
        ],
        foreign_keys: seq![ForeignKey { column: "event_id", target: "event", cascade: true }],
        indexes: seq![
        ],
    }
}

/// The `template` table.
pub open spec fn template_table() -> TableSpec {
    TableSpec {
        name: "template",
        columns: seq![
            Column { name: "id", kind: ColumnKind::Uuid, nullable: false, primary_key: true, unique: false, default: ColumnDefault::NoDefault },
            Column { name: "project_id", kind: ColumnKind::Uuid, nullable: false, primary_key: false, unique: false, default: ColumnDefault::NoDefault },
            Column { name: "name", kind: ColumnKind::Varchar(255), nullable: false, primary_key: false, unique: false, default: ColumnDefault::NoDefault },
            Column { name: "channel", kind: ColumnKind::Varchar(64), nullable: false, primary_key: false, unique: false, default: ColumnDefault::NoDefault },
            Column { name: "created_at", kind: ColumnKind::Timestamp, nullable: false, primary_key: false, unique: false, default: ColumnDefault::Now },
            Column { name: "updated_at", kind: ColumnKind::Timestamp, nullable: false, primary_key: false, unique: false, default: ColumnDefault::Now },
        ],
        foreign_keys: seq![ForeignKey { column: "project_id", target: "project", cascade: true }],
        indexes: seq![
            IndexSpec { name: "idx_template_project_name", columns: seq!["project_id", "name"], unique: true },
        ],
    }
}

/// The `template_version` table.
pub open spec fn template_version_table() -> TableSpec {
    TableSpec {
        name: "template_version",
        columns: seq![
            Column { name: "id", kind: ColumnKind::Uuid, nullable: false, primary_key: true, unique: false, default: ColumnDefault::NoDefault },
            Column { name: "template_id", kind: ColumnKind::Uuid, nullable: false, primary_key: false, unique: false, default: ColumnDefault::NoDefault },
            Column { name: "version", kind: ColumnKind::Integer, nullable: false, primary_key: false, unique: false, default: ColumnDefault::NoDefault },
            Column { name: "is_current", kind: ColumnKind::Boolean, nullable: false, primary_key: false, unique: false, default: ColumnDefault::Bool(false) },
            Column { name: "created_at", kind: ColumnKind::Timestamp, nullable: false, primary_key: false, unique: false, default: ColumnDefault::Now },
        ],
        foreign_keys: seq![ForeignKey { column: "template_id", target: "template", cascade: true }],
        indexes: seq![
            IndexSpec { name: "idx_template_version_unique", columns: seq!["template_id", "version"], unique: true },
        ],
    }
}

/// The `template_content` table.
pub open spec fn template_content_table() -> TableSpec {
    TableSpec {
        name: "template_content",
        columns: seq![
            Column { name: "id", kind: ColumnKind::Uuid, nullable: false, primary_key: true, unique: false, default: ColumnDefault::NoDefault },
            Column { name: "template_version_id", kind: ColumnKind::Uuid, nullable: false, primary_key: false, unique: false, default: ColumnDefault::NoDefault },
            Column { name: "locale", kind: ColumnKind::Varchar(10), nullable: false, primary_key: false, unique: false, default: ColumnDefault::NoDefault },
            Column { name: "body", kind: ColumnKind::JsonBinary, nullable: false, primary_key: false, unique: false, default: ColumnDefault::NoDefault },
            Column { name: "updated_at", kind: ColumnKind::Timestamp, nullable: false, primary_key: false, unique: false, default: ColumnDefault::Now },
        ],
        foreign_keys: seq![ForeignKey { column: "template_version_id", target: "template_version", cascade: true }],
        indexes: seq![
            IndexSpec { name: "idx_template_content_version_locale", columns: seq!["template_version_id", "locale"], unique: true },
        ],
    }
}

/// The `recipient` table.
pub open spec fn recipient_table() -> TableSpec {
    TableSpec {
        name: "recipient",
        columns: seq![
            Column { name: "id", kind: ColumnKind::Uuid, nullable: false, primary_key: true, unique: false, default: ColumnDefault::NoDefault },
            Column { name: "project_id", kind: ColumnKind::Uuid, nullable: false, primary_key: false, unique: false, default: ColumnDefault::NoDefault },
            Column { name: "external_id", kind: ColumnKind::Varchar(255), nullable: false, primary_key: false, unique: false, default: ColumnDefault::NoDefault },
            Column { name: "locale", kind: ColumnKind::Varchar(10), nullable: false, primary_key: false, unique: false, default: ColumnDefault::Text("en") },
            Column { name: "timezone", kind: ColumnKind::Varchar(64), nullable: false, primary_key: false, unique: false, default: ColumnDefault::Text("UTC") },
            Column { name: "metadata", kind: ColumnKind::JsonBinary, nullable: false, primary_key: false, unique: false, default: ColumnDefault::Text("{}") },
            Column { name: "created_at", kind: ColumnKind::Timestamp, nullable: false, primary_key: false, unique: false, default: ColumnDefault::Now },
            Column { name: "updated_at", kind: ColumnKind::Timestamp, nullable: false, primary_key: false, unique: false, default: ColumnDefault::Now },
        ],
        foreign_keys: seq![ForeignKey { column: "project_id", target: "project", cascade: true }],
        indexes: seq![
            IndexSpec { name: "idx_recipient_project_external", columns: seq!["project_id", "external_id"], unique: true },
        ],
    }
}

/// The `recipient_contact` table.
pub open spec fn recipient_contact_table() -> TableSpec {
    TableSpec {
        name: "recipient_contact",
        columns: seq![
            Column { name: "id", kind: ColumnKind::Uuid, nullable: false, primary_key: true, unique: false, default: ColumnDefault::NoDefault },
            Column { name: "recipient_id", kind: ColumnKind::Uuid, nullable: false, primary_key: false, unique: false, default: ColumnDefault::NoDefault },
            Column { name: "channel", kind: ColumnKind::Varchar(64), nullable: false, primary_key: false, unique: false, default: ColumnDefault::NoDefault },
            Column { name: "value", kind: ColumnKind::Varchar(512), nullable: false, primary_key: false, unique: false, default: ColumnDefault::NoDefault },
            Column { name: "verified", kind: ColumnKind::Boolean, nullable: false, primary_key: false, unique: false, default: ColumnDefault::Bool(false) },
            Column { name: "created_at", kind: ColumnKind::Timestamp, nullable: false, primary_key: false, unique: false, default: ColumnDefault::Now },
        ],
        foreign_keys: seq![ForeignKey { column: "recipient_id", target: "recipient", cascade: true }],
        indexes: seq![
            IndexSpec { name: "idx_recipient_contact_unique", columns: seq!["recipient_id", "channel", "value"], unique: true },
        ],
    }
}

/// The `recipient_preference` table.
pub open spec fn recipient_preference_table() -> TableSpec {
    TableSpec {
        name: "recipient_preference",
        columns: seq![
            Column { name: "id", kind: ColumnKind::Uuid, nullable: false, primary_key: true, unique: false, default: ColumnDefault::NoDefault },
            Column { name: "recipient_id", kind: ColumnKind::Uuid, nullable: false, primary_key: false, unique: false, default: ColumnDefault::NoDefault },
            Column { name: "category", kind: ColumnKind::Varchar(32), nullable: false, primary_key: false, unique: false, default: ColumnDefault::NoDefault },
            Column { name: "channel", kind: ColumnKind::Varchar(64), nullable: false, primary_key: false, unique: false, default: ColumnDefault::NoDefault },
            Column { name: "enabled", kind: ColumnKind::Boolean, nullable: false, primary_key: false, unique: false, default: ColumnDefault::Bool(true) },
            Column { name: "schedule_start", kind: ColumnKind::Time, nullable: true, primary_key: false, unique: false, default: ColumnDefault::NoDefault },
            Column { name: "schedule_end", kind: ColumnKind::Time, nullable: true, primary_key: false, unique: false, default: ColumnDefault::NoDefault },
            Column { name: "updated_at", kind: ColumnKind::Timestamp, nullable: false, primary_key: false, unique: false, default: ColumnDefault::Now },
        ],
        foreign_keys: seq![ForeignKey { column: "recipient_id", target: "recipient", cascade: true }],
        indexes: seq![
            IndexSpec { name: "idx_recipient_preference_unique", columns: seq!["recipient_id", "category", "channel"], unique: true },
        ],
    }
}

/// The `unsubscribe` table.
pub open spec fn unsubscribe_table() -> TableSpec {
    TableSpec {
        name: "unsubscribe",
        columns: seq![
            Column { name: "id", kind: ColumnKind::Uuid, nullable: false, primary_key: true, unique: false, default: ColumnDefault::NoDefault },
            Column { name: "recipient_id", kind: ColumnKind::Uuid, nullable: false, primary_key: false, unique: false, default: ColumnDefault::NoDefault },
            Column { name: "event_id", kind: ColumnKind::Uuid, nullable: true, primary_key: false, unique: false, default: ColumnDefault::NoDefault },
            Column { name: "category", kind: ColumnKind::Varchar(32), nullable: true, primary_key: false, unique: false, default: ColumnDefault::NoDefault },
            Column { name: "channel", kind: ColumnKind::Varchar(64), nullable: true, primary_key: false, unique: false, default: ColumnDefault::NoDefault },
            Column { name: "token", kind: ColumnKind::Varchar(128), nullable: false, primary_key: false, unique: true, default: ColumnDefault::NoDefault },
            Column { name: "created_at", kind: ColumnKind::Timestamp, nullable: false, primary_key: false, unique: false, default: ColumnDefault::Now },
        ],
        foreign_keys: seq![ForeignKey { column: "recipient_id", target: "recipient", cascade: true }, ForeignKey { column: "event_id", target: "event", cascade: false }],
        indexes: seq![
            IndexSpec { name: "idx_unsubscribe_recipient", columns: seq!["recipient_id"], unique: false },
        ],
    }
}

/// The `delivery_log` table.
pub open spec fn delivery_log_table() -> TableSpec {
    TableSpec {
        name: "delivery_log",
        columns: seq![
            Column { name: "id", kind: ColumnKind::Uuid, nullable: false, primary_key: true, unique: false, default: ColumnDefault::NoDefault },
            Column { name: "project_id", kind: ColumnKind::Uuid, nullable: false, primary_key: false, unique: false, default: ColumnDefault::NoDefault },
            Column { name: "event_name", kind: ColumnKind::Varchar(255), nullable: false, primary_key: false, unique: false, default: ColumnDefault::NoDefault },
            Column { name: "recipient_id", kind: ColumnKind::Uuid, nullable: false, primary_key: false, unique: false, default: ColumnDefault::NoDefault },
            Column { name: "channel", kind: ColumnKind::Varchar(64), nullable: false, primary_key: false, unique: false, default: ColumnDefault::NoDefault },
            Column { name: "status", kind: ColumnKind::Varchar(32), nullable: false, primary_key: false, unique: false, default: ColumnDefault::Text("queued") },
            Column { name: "error_message", kind: ColumnKind::Text, nullable: true, primary_key: false, unique: false, default: ColumnDefault::NoDefault },
            Column { name: "attempts", kind: ColumnKind::Integer, nullable: false, primary_key: false, unique: false, default: ColumnDefault::Int(0) },
            Column { name: "created_at", kind: ColumnKind::Timestamp, nullable: false, primary_key: false, unique: false, default: ColumnDefault::Now },
            Column { name: "delivered_at", kind: ColumnKind::Timestamp, nullable: true, primary_key: false, unique: false, default: ColumnDefault::NoDefault },
        ],
        foreign_keys: seq![ForeignKey { column: "project_id", target: "project", cascade: true }, ForeignKey { column: "recipient_id", target: "recipient", cascade: true }],
        indexes: seq![
            IndexSpec { name: "idx_delivery_log_project_created", columns: seq!["project_id", "created_at"], unique: false },
            IndexSpec { name: "idx_delivery_log_recipient", columns: seq!["recipient_id"], unique: false },
            IndexSpec { name: "idx_delivery_log_status", columns: seq!["status"], unique: false },
        ],
    }
}

/// The `api_key` table.
pub open spec fn api_key_table() -> TableSpec {
    TableSpec {
        name: "api_key",
        columns: seq![
            Column { name: "id", kind: ColumnKind::Uuid, nullable: false, primary_key: true, unique: false, default: ColumnDefault::NoDefault },
            Column { name: "project_id", kind: ColumnKind::Uuid, nullable: false, primary_key: false, unique: false, default: ColumnDefault::NoDefault },
            Column { name: "name", kind: ColumnKind::Varchar(255), nullable: false, primary_key: false, unique: false, default: ColumnDefault::NoDefault },
            Column { name: "key_hash", kind: ColumnKind::Varchar(64), nullable: false, primary_key: false, unique: true, default: ColumnDefault::NoDefault },
            Column { name: "key_prefix", kind: ColumnKind::Varchar(16), nullable: false, primary_key: false, unique: false, default: ColumnDefault::NoDefault },
            Column { name: "scope", kind: ColumnKind::Varchar(32), nullable: false, primary_key: false, unique: false, default: ColumnDefault::NoDefault },
            Column { name: "enabled", kind: ColumnKind::Boolean, nullable: false, primary_key: false, unique: false, default: ColumnDefault::Bool(true) },
            Column { name: "expires_at", kind: ColumnKind::Timestamp, nullable: true, primary_key: false, unique: false, default: ColumnDefault::NoDefault },
            Column { name: "created_at", kind: ColumnKind::Timestamp, nullable: false, primary_key: false, unique: false, default: ColumnDefault::Now },
        ],
        foreign_keys: seq![ForeignKey { column: "project_id", target: "project", cascade: true }],
        indexes: seq![
            IndexSpec { name: "idx_api_key_project", columns: seq!["project_id"], unique: false },
        ],
    }
}

/// The `idempotency_record` table.
pub open spec fn idempotency_record_table() -> TableSpec {
    TableSpec {
        name: "idempotency_record",
        columns: seq![
            Column { name: "id", kind: ColumnKind::Uuid, nullable: false, primary_key: true, unique: false, default: ColumnDefault::NoDefault },
            Column { name: "idempotency_key", kind: ColumnKind::Varchar(512), nullable: false, primary_key: false, unique: false, default: ColumnDefault::NoDefault },
            Column { name: "created_at", kind: ColumnKind::Timestamp, nullable: false, primary_key: false, unique: false, default: ColumnDefault::Now },
        ],
        foreign_keys: seq![],
        indexes: seq![
            IndexSpec { name: "idx_idempotency_key_unique", columns: seq!["idempotency_key"], unique: true },
        ],
    }
}

/// The `delivery_task` table.
pub open spec fn delivery_task_table() -> TableSpec {
    TableSpec {
        name: "delivery_task",
        columns: seq![
            Column { name: "id", kind: ColumnKind::Uuid, nullable: false, primary_key: true, unique: false, default: ColumnDefault::NoDefault },
            Column { name: "project_id", kind: ColumnKind::Uuid, nullable: false, primary_key: false, unique: false, default: ColumnDefault::NoDefault },
            Column { name: "event_name", kind: ColumnKind::Varchar(255), nullable: false, primary_key: false, unique: false, default: ColumnDefault::NoDefault },
            Column { name: "recipient_id", kind: ColumnKind::Uuid, nullable: false, primary_key: false, unique: false, default: ColumnDefault::NoDefault },
            Column { name: "channel", kind: ColumnKind::Varchar(64), nullable: false, primary_key: false, unique: false, default: ColumnDefault::NoDefault },
            Column { name: "contact_value", kind: ColumnKind::Varchar(512), nullable: false, primary_key: false, unique: false, default: ColumnDefault::NoDefault },
            Column { name: "rendered_body", kind: ColumnKind::Json, nullable: false, primary_key: false, unique: false, default: ColumnDefault::NoDefault },
            Column { name: "idempotency_key", kind: ColumnKind::Varchar(512), nullable: true, primary_key: false, unique: false, default: ColumnDefault::NoDefault },
            Column { name: "status", kind: ColumnKind::Varchar(32), nullable: false, primary_key: false, unique: false, default: ColumnDefault::Text("pending") },
            Column { name: "attempt", kind: ColumnKind::Integer, nullable: false, primary_key: false, unique: false, default: ColumnDefault::Int(0) },
            Column { name: "max_attempts", kind: ColumnKind::Integer, nullable: false, primary_key: false, unique: false, default: ColumnDefault::Int(5) },
            Column { name: "error_message", kind: ColumnKind::Text, nullable: true, primary_key: false, unique: false, default: ColumnDefault::NoDefault },
            Column { name: "next_retry_at", kind: ColumnKind::Timestamp, nullable: false, primary_key: false, unique: false, default: ColumnDefault::Now },
            Column { name: "created_at", kind: ColumnKind::Timestamp, nullable: false, primary_key: false, unique: false, default: ColumnDefault::Now },
            Column { name: "updated_at", kind: ColumnKind::Timestamp, nullable: false, primary_key: false, unique: false, default: ColumnDefault::Now },
        ],
        foreign_keys: seq![ForeignKey { column: "project_id", target: "project", cascade: true }, ForeignKey { column: "recipient_id", target: "recipient", cascade: true }],
        indexes: seq![
            IndexSpec { name: "idx_delivery_task_poll", columns: seq!["status", "next_retry_at"], unique: false },
            IndexSpec { name: "idx_delivery_task_project", columns: seq!["project_id"], unique: false },
        ],
    }
}

/// The `credential` table.
pub open spec fn credential_table() -> TableSpec {
    TableSpec {
        name: "credential",
        columns: seq![
            Column { name: "id", kind: ColumnKind::Uuid, nullable: false, primary_key: true, unique: false, default: ColumnDefault::NoDefault },
            Column { name: "project_id", kind: ColumnKind::Uuid, nullable: false, primary_key: false, unique: false, default: ColumnDefault::NoDefault },
            Column { name: "name", kind: ColumnKind::Varchar(255), nullable: false, primary_key: false, unique: false, default: ColumnDefault::NoDefault },
            Column { name: "channel", kind: ColumnKind::Varchar(64), nullable: false, primary_key: false, unique: false, default: ColumnDefault::NoDefault },
            Column { name: "encrypted_data", kind: ColumnKind::Text, nullable: false, primary_key: false, unique: false, default: ColumnDefault::NoDefault },
            Column { name: "enabled", kind: ColumnKind::Boolean, nullable: false, primary_key: false, unique: false, default: ColumnDefault::Bool(true) },
            Column { name: "created_at", kind: ColumnKind::Timestamp, nullable: false, primary_key: false, unique: false, default: ColumnDefault::Now },
            Column { name: "updated_at", kind: ColumnKind::Timestamp, nullable: false, primary_key: false, unique: false, default: ColumnDefault::Now },
        ],
        foreign_keys: seq![ForeignKey { column: "project_id", target: "project", cascade: true }],
        indexes: seq![
            IndexSpec { name: "idx_credential_project_name", columns: seq!["project_id", "name"], unique: true },
            IndexSpec { name: "idx_credential_project_channel", columns: seq!["project_id", "channel"], unique: false },
        ],
    }
}

/// The `pipeline_middleware` table.
pub open spec fn pipeline_middleware_table() -> TableSpec {
    TableSpec {
        name: "pipeline_middleware",
        columns: seq![
            Column { name: "id", kind: ColumnKind::Text, nullable: false, primary_key: true, unique: false, default: ColumnDefault::NoDefault },
            Column { name: "rule_id", kind: ColumnKind::Text, nullable: false, primary_key: false, unique: false, default: ColumnDefault::NoDefault },
            Column { name: "middleware_name", kind: ColumnKind::Text, nullable: false, primary_key: false, unique: false, default: ColumnDefault::NoDefault },
            Column { name: "config", kind: ColumnKind::Text, nullable: false, primary_key: false, unique: false, default: ColumnDefault::Text("{}") },
            Column { name: "priority", kind: ColumnKind::Integer, nullable: false, primary_key: false, unique: false, default: ColumnDefault::Int(0) },
            Column { name: "enabled", kind: ColumnKind::Integer, nullable: false, primary_key: false, unique: false, default: ColumnDefault::Int(1) },
            Column { name: "created_at", kind: ColumnKind::Text, nullable: false, primary_key: false, unique: false, default: ColumnDefault::Now },
        ],
        foreign_keys: seq![ForeignKey { column: "rule_id", target: "pipeline_rule", cascade: true }],
        indexes: seq![
            IndexSpec { name: "idx_pipeline_middleware_rule_id", columns: seq!["rule_id", "priority"], unique: false },
        ],
    }
}

/// The `tracking_event` table.
pub open spec fn tracking_event_table() -> TableSpec {
    TableSpec {
        name: "tracking_event",
        columns: seq![
            Column { name: "id", kind: ColumnKind::Text, nullable: false, primary_key: true, unique: false, default: ColumnDefault::NoDefault },
            Column { name: "delivery_log_id", kind: ColumnKind::Text, nullable: true, primary_key: false, unique: false, default: ColumnDefault::NoDefault },
            Column { name: "event_type", kind: ColumnKind::Text, nullable: false, primary_key: false, unique: false, default: ColumnDefault::NoDefault },
            Column { name: "url", kind: ColumnKind::Text, nullable: true, primary_key: false, unique: false, default: ColumnDefault::NoDefault },
            Column { name: "created_at", kind: ColumnKind::Text, nullable: false, primary_key: false, unique: false, default: ColumnDefault::Now },
        ],
        foreign_keys: seq![],
        indexes: seq![
            IndexSpec { name: "idx_tracking_event_delivery", columns: seq!["delivery_log_id"], unique: false },
        ],
    }
}
/// The definition of the table `name`, if the schema has one.
pub open spec fn table_spec(name: Seq<char>) -> Option<TableSpec> {
    if name == "project"@ {
        Some(project_table())
    } else if name == "event"@ {
        Some(event_table())
    } else if name == "pipeline_rule"@ {
        Some(pipeline_rule_table())
    } else if name == "template"@ {
        Some(template_table())
    } else if name == "template_version"@ {
        Some(template_version_table())
    } else if name == "template_content"@ {
        Some(template_content_table())
    } else if name == "recipient"@ {
        Some(recipient_table())
    } else if name == "recipient_contact"@ {
        Some(recipient_contact_table())
    } else if name == "recipient_preference"@ {
        Some(recipient_preference_table())
    } else if name == "unsubscribe"@ {
        Some(unsubscribe_table())
    } else if name == "delivery_log"@ {
        Some(delivery_log_table())
    } else if name == "api_key"@ {
        Some(api_key_table())
    } else if name == "idempotency_record"@ {
        Some(idempotency_record_table())
    } else if name == "delivery_task"@ {
        Some(delivery_task_table())
    } else if name == "credential"@ {
        Some(credential_table())
    } else if name == "pipeline_middleware"@ {
        Some(pipeline_middleware_table())
    } else if name == "tracking_event"@ {
        Some(tracking_event_table())
    } else {
        None
    }
}
fn project_def() -> (t: TableDef)
    ensures
        t@ == project_table(),
{
    let t = TableDef {
        name: "project",
        columns: vec![
            Column { name: "id", kind: ColumnKind::Uuid, nullable: false, primary_key: true, unique: false, default: ColumnDefault::NoDefault },
            Column { name: "name", kind: ColumnKind::Varchar(255), nullable: false, primary_key: false, unique: false, default: ColumnDefault::NoDefault },
            Column { name: "default_locale", kind: ColumnKind::Varchar(10), nullable: false, primary_key: false, unique: false, default: ColumnDefault::Text("en") },
            Column { name: "settings", kind: ColumnKind::JsonBinary, nullable: false, primary_key: false, unique: false, default: ColumnDefault::Text("{}") },
            Column { name: "created_at", kind: ColumnKind::Timestamp, nullable: false, primary_key: false, unique: false, default: ColumnDefault::Now },
            Column { name: "updated_at", kind: ColumnKind::Timestamp, nullable: false, primary_key: false, unique: false, default: ColumnDefault::Now },
        ],
        foreign_keys: vec![],
        indexes: vec![
        ],
    };
    proof {
        let s = project_table();
        assert(t.columns@ =~= s.columns);
        assert(t.foreign_keys@ =~= s.foreign_keys);
        assert(t@.indexes =~= s.indexes);
    }
    t
}

fn event_def() -> (t: TableDef)
    ensures
        t@ == event_table(),
{
    let t = TableDef {
        name: "event",
        columns: vec![
            Column { name: "id", kind: ColumnKind::Uuid, nullable: false, primary_key: true, unique: false, default: ColumnDefault::NoDefault },
            Column { name: "project_id", kind: ColumnKind::Uuid, nullable: false, primary_key: false, unique: false, default: ColumnDefault::NoDefault },
            Column { name: "name", kind: ColumnKind::Varchar(255), nullable: false, primary_key: false, unique: false, default: ColumnDefault::NoDefault },
            Column { name: "category", kind: ColumnKind::Varchar(32), nullable: false, primary_key: false, unique: false, default: ColumnDefault::NoDefault },
            Column { name: "description", kind: ColumnKind::Text, nullable: false, primary_key: false, unique: false, default: ColumnDefault::Text("") },
            Column { name: "created_at", kind: ColumnKind::Timestamp, nullable: false, primary_key: false, unique: false, default: ColumnDefault::Now },
        ],
        foreign_keys: vec![ForeignKey { column: "project_id", target: "project", cascade: true }],
        indexes: vec![
            Index { name: "idx_event_project_name", columns: vec!["project_id", "name"], unique: true },
        ],
    };
    proof {
        let s = event_table();
        assert(t.columns@ =~= s.columns);
        assert(t.foreign_keys@ =~= s.foreign_keys);
        assert(t.indexes@[0].columns@ =~= s.indexes[0].columns);
        assert(t@.indexes =~= s.indexes);
    }
    t
}

fn pipeline_rule_def() -> (t: TableDef)
    ensures
        t@ == pipeline_rule_table(),
{
    let t = TableDef {
        name: "pipeline_rule",
        columns: vec![
            Column { name: "id", kind: ColumnKind::Uuid, nullable: false, primary_key: true, unique: false, default: ColumnDefault::NoDefault },
            Column { name: "event_id", kind: ColumnKind::Uuid, nullable: false, primary_key: false, unique: false, default: ColumnDefault::NoDefault },
            Column { name: "channel", kind: ColumnKind::Varchar(64), nullable: false, primary_key: false, unique: false, default: ColumnDefault::NoDefault },
            Column { name: "template_id", kind: ColumnKind::Uuid, nullable: false, primary_key: false, unique: false, default: ColumnDefault::NoDefault },
            Column { name: "enabled", kind: ColumnKind::Boolean, nullable: false, primary_key: false, unique: false, default: ColumnDefault::Bool(true) },
            Column { name: "conditions", kind: ColumnKind::JsonBinary, nullable: true, primary_key: false, unique: false, default: ColumnDefault::NoDefault },
            Column { name: "priority", kind: ColumnKind::Integer, nullable: false, primary_key: false, unique: false, default: ColumnDefault::Int(0) },
        ],
        foreign_keys: vec![ForeignKey { column: "event_id", target: "event", cascade: true }],
        indexes: vec![
        ],
    };
    proof {
        let s = pipeline_rule_table();
        assert(t.columns@ =~= s.columns);
        assert(t.foreign_keys@ =~= s.foreign_keys);
        assert(t@.indexes =~= s.indexes);
    }
    t
}

fn template_def() -> (t: TableDef)
    ensures
        t@ == template_table(),
{
    let t = TableDef {
        name: "template",
        columns: vec![
            Column { name: "id", kind: ColumnKind::Uuid, nullable: false, primary_key: true, unique: false, default: ColumnDefault::NoDefault },
            Column { name: "project_id", kind: ColumnKind::Uuid, nullable: false, primary_key: false, unique: false, default: ColumnDefault::NoDefault },
            Column { name: "name", kind: ColumnKind::Varchar(255), nullable: false, primary_key: false, unique: false, default: ColumnDefault::NoDefault },
            Column { name: "channel", kind: ColumnKind::Varchar(64), nullable: false, primary_key: false, unique: false, default: ColumnDefault::NoDefault },
            Column { name: "created_at", kind: ColumnKind::Timestamp, nullable: false, primary_key: false, unique: false, default: ColumnDefault::Now },
            Column { name: "updated_at", kind: ColumnKind::Timestamp, nullable: false, primary_key: false, unique: false, default: ColumnDefault::Now },
        ],
        foreign_keys: vec![ForeignKey { column: "project_id", target: "project", cascade: true }],
        indexes: vec![
            Index { name: "idx_template_project_name", columns: vec!["project_id", "name"], unique: true },
        ],
    };
    proof {
        let s = template_table();
        assert(t.columns@ =~= s.columns);
        assert(t.foreign_keys@ =~= s.foreign_keys);
        assert(t.indexes@[0].columns@ =~= s.indexes[0].columns);
        assert(t@.indexes =~= s.indexes);
    }
    t
}

fn template_version_def() -> (t: TableDef)
    ensures
        t@ == template_version_table(),
{
    let t = TableDef {
        name: "template_version",
        columns: vec![
            Column { name: "id", kind: ColumnKind::Uuid, nullable: false, primary_key: true, unique: false, default: ColumnDefault::NoDefault },
            Column { name: "template_id", kind: ColumnKind::Uuid, nullable: false, primary_key: false, unique: false, default: ColumnDefault::NoDefault },
            Column { name: "version", kind: ColumnKind::Integer, nullable: false, primary_key: false, unique: false, default: ColumnDefault::NoDefault },
            Column { name: "is_current", kind: ColumnKind::Boolean, nullable: false, primary_key: false, unique: false, default: ColumnDefault::Bool(false) },
            Column { name: "created_at", kind: ColumnKind::Timestamp, nullable: false, primary_key: false, unique: false, default: ColumnDefault::Now },
        ],
        foreign_keys: vec![ForeignKey { column: "template_id", target: "template", cascade: true }],
        indexes: vec![
            Index { name: "idx_template_version_unique", columns: vec!["template_id", "version"], unique: true },
        ],
    };
    proof {
        let s = template_version_table();
        assert(t.columns@ =~= s.columns);
        assert(t.foreign_keys@ =~= s.foreign_keys);
        assert(t.indexes@[0].columns@ =~= s.indexes[0].columns);
        assert(t@.indexes =~= s.indexes);
    }
    t
}

fn template_content_def() -> (t: TableDef)
    ensures
        t@ == template_content_table(),
{
    let t = TableDef {
        name: "template_content",
        columns: vec![
            Column { name: "id", kind: ColumnKind::Uuid, nullable: false, primary_key: true, unique: false, default: ColumnDefault::NoDefault },
            Column { name: "template_version_id", kind: ColumnKind::Uuid, nullable: false, primary_key: false, unique: false, default: ColumnDefault::NoDefault },
            Column { name: "locale", kind: ColumnKind::Varchar(10), nullable: false, primary_key: false, unique: false, default: ColumnDefault::NoDefault },
            Column { name: "body", kind: ColumnKind::JsonBinary, nullable: false, primary_key: false, unique: false, default: ColumnDefault::NoDefault },
            Column { name: "updated_at", kind: ColumnKind::Timestamp, nullable: false, primary_key: false, unique: false, default: ColumnDefault::Now },
        ],
        foreign_keys: vec![ForeignKey { column: "template_version_id", target: "template_version", cascade: true }],
        indexes: vec![
            Index { name: "idx_template_content_version_locale", columns: vec!["template_version_id", "locale"], unique: true },
        ],
    };
    proof {
        let s = template_content_table();
        assert(t.columns@ =~= s.columns);
        assert(t.foreign_keys@ =~= s.foreign_keys);
        assert(t.indexes@[0].columns@ =~= s.indexes[0].columns);
        assert(t@.indexes =~= s.indexes);
    }
    t
}

fn recipient_def() -> (t: TableDef)
    ensures
        t@ == recipient_table(),
{
    let t = TableDef {
        name: "recipient",
        columns: vec![
            Column { name: "id", kind: ColumnKind::Uuid, nullable: false, primary_key: true, unique: false, default: ColumnDefault::NoDefault },
            Column { name: "project_id", kind: ColumnKind::Uuid, nullable: false, primary_key: false, unique: false, default: ColumnDefault::NoDefault },
            Column { name: "external_id", kind: ColumnKind::Varchar(255), nullable: false, primary_key: false, unique: false, default: ColumnDefault::NoDefault },
            Column { name: "locale", kind: ColumnKind::Varchar(10), nullable: false, primary_key: false, unique: false, default: ColumnDefault::Text("en") },
            Column { name: "timezone", kind: ColumnKind::Varchar(64), nullable: false, primary_key: false, unique: false, default: ColumnDefault::Text("UTC") },
            Column { name: "metadata", kind: ColumnKind::JsonBinary, nullable: false, primary_key: false, unique: false, default: ColumnDefault::Text("{}") },
            Column { name: "created_at", kind: ColumnKind::Timestamp, nullable: false, primary_key: false, unique: false, default: ColumnDefault::Now },
            Column { name: "updated_at", kind: ColumnKind::Timestamp, nullable: false, primary_key: false, unique: false, default: ColumnDefault::Now },
        ],
        foreign_keys: vec![ForeignKey { column: "project_id", target: "project", cascade: true }],
        indexes: vec![
            Index { name: "idx_recipient_project_external", columns: vec!["project_id", "external_id"], unique: true },
        ],
    };
    proof {
        let s = recipient_table();
        assert(t.columns@ =~= s.columns);
        assert(t.foreign_keys@ =~= s.foreign_keys);
        assert(t.indexes@[0].columns@ =~= s.indexes[0].columns);
        assert(t@.indexes =~= s.indexes);
    }
    t
}

fn recipient_contact_def() -> (t: TableDef)
    ensures
        t@ == recipient_contact_table(),
{
    let t = TableDef {
        name: "recipient_contact",
        columns: vec![
            Column { name: "id", kind: ColumnKind::Uuid, nullable: false, primary_key: true, unique: false, default: ColumnDefault::NoDefault },
            Column { name: "recipient_id", kind: ColumnKind::Uuid, nullable: false, primary_key: false, unique: false, default: ColumnDefault::NoDefault },
            Column { name: "channel", kind: ColumnKind::Varchar(64), nullable: false, primary_key: false, unique: false, default: ColumnDefault::NoDefault },
            Column { name: "value", kind: ColumnKind::Varchar(512), nullable: false, primary_key: false, unique: false, default: ColumnDefault::NoDefault },
            Column { name: "verified", kind: ColumnKind::Boolean, nullable: false, primary_key: false, unique: false, default: ColumnDefault::Bool(false) },
            Column { name: "created_at", kind: ColumnKind::Timestamp, nullable: false, primary_key: false, unique: false, default: ColumnDefault::Now },
        ],
        foreign_keys: vec![ForeignKey { column: "recipient_id", target: "recipient", cascade: true }],
        indexes: vec![
            Index { name: "idx_recipient_contact_unique", columns: vec!["recipient_id", "channel", "value"], unique: true },
        ],
    };
    proof {
        let s = recipient_contact_table();
        assert(t.columns@ =~= s.columns);
        assert(t.foreign_keys@ =~= s.foreign_keys);
        assert(t.indexes@[0].columns@ =~= s.indexes[0].columns);
        assert(t@.indexes =~= s.indexes);
    }
    t
}

fn recipient_preference_def() -> (t: TableDef)
    ensures
        t@ == recipient_preference_table(),
{
    let t = TableDef {
        name: "recipient_preference",
        columns: vec![
            Column { name: "id", kind: ColumnKind::Uuid, nullable: false, primary_key: true, unique: false, default: ColumnDefault::NoDefault },
            Column { name: "recipient_id", kind: ColumnKind::Uuid, nullable: false, primary_key: false, unique: false, default: ColumnDefault::NoDefault },
            Column { name: "category", kind: ColumnKind::Varchar(32), nullable: false, primary_key: false, unique: false, default: ColumnDefault::NoDefault },
            Column { name: "channel", kind: ColumnKind::Varchar(64), nullable: false, primary_key: false, unique: false, default: ColumnDefault::NoDefault },
            Column { name: "enabled", kind: ColumnKind::Boolean, nullable: false, primary_key: false, unique: false, default: ColumnDefault::Bool(true) },
            Column { name: "schedule_start", kind: ColumnKind::Time, nullable: true, primary_key: false, unique: false, default: ColumnDefault::NoDefault },
            Column { name: "schedule_end", kind: ColumnKind::Time, nullable: true, primary_key: false, unique: false, default: ColumnDefault::NoDefault },
            Column { name: "updated_at", kind: ColumnKind::Timestamp, nullable: false, primary_key: false, unique: false, default: ColumnDefault::Now },
        ],
        foreign_keys: vec![ForeignKey { column: "recipient_id", target: "recipient", cascade: true }],
        indexes: vec![
            Index { name: "idx_recipient_preference_unique", columns: vec!["recipient_id", "category", "channel"], unique: true },
        ],
    };
    proof {
        let s = recipient_preference_table();
        assert(t.columns@ =~= s.columns);
        assert(t.foreign_keys@ =~= s.foreign_keys);
        assert(t.indexes@[0].columns@ =~= s.indexes[0].columns);
        assert(t@.indexes =~= s.indexes);
    }
    t
}

fn unsubscribe_def() -> (t: TableDef)
    ensures
        t@ == unsubscribe_table(),
{
    let t = TableDef {
        name: "unsubscribe",
        columns: vec![
            Column { name: "id", kind: ColumnKind::Uuid, nullable: false, primary_key: true, unique: false, default: ColumnDefault::NoDefault },
            Column { name: "recipient_id", kind: ColumnKind::Uuid, nullable: false, primary_key: false, unique: false, default: ColumnDefault::NoDefault },
            Column { name: "event_id", kind: ColumnKind::Uuid, nullable: true, primary_key: false, unique: false, default: ColumnDefault::NoDefault },
            Column { name: "category", kind: ColumnKind::Varchar(32), nullable: true, primary_key: false, unique: false, default: ColumnDefault::NoDefault },
            Column { name: "channel", kind: ColumnKind::Varchar(64), nullable: true, primary_key: false, unique: false, default: ColumnDefault::NoDefault },
            Column { name: "token", kind: ColumnKind::Varchar(128), nullable: false, primary_key: false, unique: true, default: ColumnDefault::NoDefault },
            Column { name: "created_at", kind: ColumnKind::Timestamp, nullable: false, primary_key: false, unique: false, default: ColumnDefault::Now },
        ],
        foreign_keys: vec![ForeignKey { column: "recipient_id", target: "recipient", cascade: true }, ForeignKey { column: "event_id", target: "event", cascade: false }],
        indexes: vec![
            Index { name: "idx_unsubscribe_recipient", columns: vec!["recipient_id"], unique: false },
        ],
    };
    proof {
        let s = unsubscribe_table();
        assert(t.columns@ =~= s.columns);
        assert(t.foreign_keys@ =~= s.foreign_keys);
        assert(t.indexes@[0].columns@ =~= s.indexes[0].columns);
        assert(t@.indexes =~= s.indexes);
    }
    t
}

fn delivery_log_def() -> (t: TableDef)
    ensures
        t@ == delivery_log_table(),
{
    let t = TableDef {
        name: "delivery_log",
        columns: vec![
            Column { name: "id", kind: ColumnKind::Uuid, nullable: false, primary_key: true, unique: false, default: ColumnDefault::NoDefault },
            Column { name: "project_id", kind: ColumnKind::Uuid, nullable: false, primary_key: false, unique: false, default: ColumnDefault::NoDefault },
            Column { name: "event_name", kind: ColumnKind::Varchar(255), nullable: false, primary_key: false, unique: false, default: ColumnDefault::NoDefault },
            Column { name: "recipient_id", kind: ColumnKind::Uuid, nullable: false, primary_key: false, unique: false, default: ColumnDefault::NoDefault },
            Column { name: "channel", kind: ColumnKind::Varchar(64), nullable: false, primary_key: false, unique: false, default: ColumnDefault::NoDefault },
            Column { name: "status", kind: ColumnKind::Varchar(32), nullable: false, primary_key: false, unique: false, default: ColumnDefault::Text("queued") },
            Column { name: "error_message", kind: ColumnKind::Text, nullable: true, primary_key: false, unique: false, default: ColumnDefault::NoDefault },
            Column { name: "attempts", kind: ColumnKind::Integer, nullable: false, primary_key: false, unique: false, default: ColumnDefault::Int(0) },
            Column { name: "created_at", kind: ColumnKind::Timestamp, nullable: false, primary_key: false, unique: false, default: ColumnDefault::Now },
            Column { name: "delivered_at", kind: ColumnKind::Timestamp, nullable: true, primary_key: false, unique: false, default: ColumnDefault::NoDefault },
        ],
        foreign_keys: vec![ForeignKey { column: "project_id", target: "project", cascade: true }, ForeignKey { column: "recipient_id", target: "recipient", cascade: true }],
        indexes: vec![
            Index { name: "idx_delivery_log_project_created", columns: vec!["project_id", "created_at"], unique: false },
            Index { name: "idx_delivery_log_recipient", columns: vec!["recipient_id"], unique: false },
            Index { name: "idx_delivery_log_status", columns: vec!["status"], unique: false },
        ],
    };
    proof {
        let s = delivery_log_table();
        assert(t.columns@ =~= s.columns);
        assert(t.foreign_keys@ =~= s.foreign_keys);
        assert(t.indexes@[0].columns@ =~= s.indexes[0].columns);
        assert(t.indexes@[1].columns@ =~= s.indexes[1].columns);
        assert(t.indexes@[2].columns@ =~= s.indexes[2].columns);
        assert(t@.indexes =~= s.indexes);
    }
    t
}

fn api_key_def() -> (t: TableDef)
    ensures
        t@ == api_key_table(),
{
    let t = TableDef {
        name: "api_key",
        columns: vec![
            Column { name: "id", kind: ColumnKind::Uuid, nullable: false, primary_key: true, unique: false, default: ColumnDefault::NoDefault },
            Column { name: "project_id", kind: ColumnKind::Uuid, nullable: false, primary_key: false, unique: false, default: ColumnDefault::NoDefault },
            Column { name: "name", kind: ColumnKind::Varchar(255), nullable: false, primary_key: false, unique: false, default: ColumnDefault::NoDefault },
            Column { name: "key_hash", kind: ColumnKind::Varchar(64), nullable: false, primary_key: false, unique: true, default: ColumnDefault::NoDefault },
            Column { name: "key_prefix", kind: ColumnKind::Varchar(16), nullable: false, primary_key: false, unique: false, default: ColumnDefault::NoDefault },
            Column { name: "scope", kind: ColumnKind::Varchar(32), nullable: false, primary_key: false, unique: false, default: ColumnDefault::NoDefault },
            Column { name: "enabled", kind: ColumnKind::Boolean, nullable: false, primary_key: false, unique: false, default: ColumnDefault::Bool(true) },
            Column { name: "expires_at", kind: ColumnKind::Timestamp, nullable: true, primary_key: false, unique: false, default: ColumnDefault::NoDefault },
            Column { name: "created_at", kind: ColumnKind::Timestamp, nullable: false, primary_key: false, unique: false, default: ColumnDefault::Now },
        ],
        foreign_keys: vec![ForeignKey { column: "project_id", target: "project", cascade: true }],
        indexes: vec![
            Index { name: "idx_api_key_project", columns: vec!["project_id"], unique: false },
        ],
    };
    proof {
        let s = api_key_table();
        assert(t.columns@ =~= s.columns);
        assert(t.foreign_keys@ =~= s.foreign_keys);
        assert(t.indexes@[0].columns@ =~= s.indexes[0].columns);
        assert(t@.indexes =~= s.indexes);
    }
    t
}

fn idempotency_record_def() -> (t: TableDef)
    ensures
        t@ == idempotency_record_table(),
{
    let t = TableDef {
        name: "idempotency_record",
        columns: vec![
            Column { name: "id", kind: ColumnKind::Uuid, nullable: false, primary_key: true, unique: false, default: ColumnDefault::NoDefault },
            Column { name: "idempotency_key", kind: ColumnKind::Varchar(512), nullable: false, primary_key: false, unique: false, default: ColumnDefault::NoDefault },
            Column { name: "created_at", kind: ColumnKind::Timestamp, nullable: false, primary_key: false, unique: false, default: ColumnDefault::Now },
        ],
        foreign_keys: vec![],
        indexes: vec![
            Index { name: "idx_idempotency_key_unique", columns: vec!["idempotency_key"], unique: true },
        ],
    };
    proof {
        let s = idempotency_record_table();
        assert(t.columns@ =~= s.columns);
        assert(t.foreign_keys@ =~= s.foreign_keys);
        assert(t.indexes@[0].columns@ =~= s.indexes[0].columns);
        assert(t@.indexes =~= s.indexes);
    }
    t
}

fn delivery_task_def() -> (t: TableDef)
    ensures
        t@ == delivery_task_table(),
{
    let t = TableDef {
        name: "delivery_task",
        columns: vec![
            Column { name: "id", kind: ColumnKind::Uuid, nullable: false, primary_key: true, unique: false, default: ColumnDefault::NoDefault },
            Column { name: "project_id", kind: ColumnKind::Uuid, nullable: false, primary_key: false, unique: false, default: ColumnDefault::NoDefault },
            Column { name: "event_name", kind: ColumnKind::Varchar(255), nullable: false, primary_key: false, unique: false, default: ColumnDefault::NoDefault },
            Column { name: "recipient_id", kind: ColumnKind::Uuid, nullable: false, primary_key: false, unique: false, default: ColumnDefault::NoDefault },
            Column { name: "channel", kind: ColumnKind::Varchar(64), nullable: false, primary_key: false, unique: false, default: ColumnDefault::NoDefault },
            Column { name: "contact_value", kind: ColumnKind::Varchar(512), nullable: false, primary_key: false, unique: false, default: ColumnDefault::NoDefault },
            Column { name: "rendered_body", kind: ColumnKind::Json, nullable: false, primary_key: false, unique: false, default: ColumnDefault::NoDefault },
            Column { name: "idempotency_key", kind: ColumnKind::Varchar(512), nullable: true, primary_key: false, unique: false, default: ColumnDefault::NoDefault },
            Column { name: "status", kind: ColumnKind::Varchar(32), nullable: false, primary_key: false, unique: false, default: ColumnDefault::Text("pending") },
            Column { name: "attempt", kind: ColumnKind::Integer, nullable: false, primary_key: false, unique: false, default: ColumnDefault::Int(0) },
            Column { name: "max_attempts", kind: ColumnKind::Integer, nullable: false, primary_key: false, unique: false, default: ColumnDefault::Int(5) },
            Column { name: "error_message", kind: ColumnKind::Text, nullable: true, primary_key: false, unique: false, default: ColumnDefault::NoDefault },
            Column { name: "next_retry_at", kind: ColumnKind::Timestamp, nullable: false, primary_key: false, unique: false, default: ColumnDefault::Now },
            Column { name: "created_at", kind: ColumnKind::Timestamp, nullable: false, primary_key: false, unique: false, default: ColumnDefault::Now },
            Column { name: "updated_at", kind: ColumnKind::Timestamp, nullable: false, primary_key: false, unique: false, default: ColumnDefault::Now },
        ],
        foreign_keys: vec![ForeignKey { column: "project_id", target: "project", cascade: true }, ForeignKey { column: "recipient_id", target: "recipient", cascade: true }],
        indexes: vec![
            Index { name: "idx_delivery_task_poll", columns: vec!["status", "next_retry_at"], unique: false },
            Index { name: "idx_delivery_task_project", columns: vec!["project_id"], unique: false },
        ],
    };
    proof {
        let s = delivery_task_table();
        assert(t.columns@ =~= s.columns);
        assert(t.foreign_keys@ =~= s.foreign_keys);
        assert(t.indexes@[0].columns@ =~= s.indexes[0].columns);
        assert(t.indexes@[1].columns@ =~= s.indexes[1].columns);
        assert(t@.indexes =~= s.indexes);
    }
    t
}

fn credential_def() -> (t: TableDef)
    ensures
        t@ == credential_table(),
{
    let t = TableDef {
        name: "credential",
        columns: vec![
            Column { name: "id", kind: ColumnKind::Uuid, nullable: false, primary_key: true, unique: false, default: ColumnDefault::NoDefault },
            Column { name: "project_id", kind: ColumnKind::Uuid, nullable: false, primary_key: false, unique: false, default: ColumnDefault::NoDefault },
            Column { name: "name", kind: ColumnKind::Varchar(255), nullable: false, primary_key: false, unique: false, default: ColumnDefault::NoDefault },
            Column { name: "channel", kind: ColumnKind::Varchar(64), nullable: false, primary_key: false, unique: false, default: ColumnDefault::NoDefault },
            Column { name: "encrypted_data", kind: ColumnKind::Text, nullable: false, primary_key: false, unique: false, default: ColumnDefault::NoDefault },
            Column { name: "enabled", kind: ColumnKind::Boolean, nullable: false, primary_key: false, unique: false, default: ColumnDefault::Bool(true) },
            Column { name: "created_at", kind: ColumnKind::Timestamp, nullable: false, primary_key: false, unique: false, default: ColumnDefault::Now },
            Column { name: "updated_at", kind: ColumnKind::Timestamp, nullable: false, primary_key: false, unique: false, default: ColumnDefault::Now },
        ],
        foreign_keys: vec![ForeignKey { column: "project_id", target: "project", cascade: true }],
        indexes: vec![
            Index { name: "idx_credential_project_name", columns: vec!["project_id", "name"], unique: true },
            Index { name: "idx_credential_project_channel", columns: vec!["project_id", "channel"], unique: false },
        ],
    };
    proof {
        let s = credential_table();
        assert(t.columns@ =~= s.columns);
        assert(t.foreign_keys@ =~= s.foreign_keys);
        assert(t.indexes@[0].columns@ =~= s.indexes[0].columns);
        assert(t.indexes@[1].columns@ =~= s.indexes[1].columns);
        assert(t@.indexes =~= s.indexes);
    }
    t
}

fn pipeline_middleware_def() -> (t: TableDef)
    ensures
        t@ == pipeline_middleware_table(),
{
    let t = TableDef {
        name: "pipeline_middleware",
        columns: vec![
            Column { name: "id", kind: ColumnKind::Text, nullable: false, primary_key: true, unique: false, default: ColumnDefault::NoDefault },
            Column { name: "rule_id", kind: ColumnKind::Text, nullable: false, primary_key: false, unique: false, default: ColumnDefault::NoDefault },
            Column { name: "middleware_name", kind: ColumnKind::Text, nullable: false, primary_key: false, unique: false, default: ColumnDefault::NoDefault },
            Column { name: "config", kind: ColumnKind::Text, nullable: false, primary_key: false, unique: false, default: ColumnDefault::Text("{}") },
            Column { name: "priority", kind: ColumnKind::Integer, nullable: false, primary_key: false, unique: false, default: ColumnDefault::Int(0) },
            Column { name: "enabled", kind: ColumnKind::Integer, nullable: false, primary_key: false, unique: false, default: ColumnDefault::Int(1) },
            Column { name: "created_at", kind: ColumnKind::Text, nullable: false, primary_key: false, unique: false, default: ColumnDefault::Now },
        ],
        foreign_keys: vec![ForeignKey { column: "rule_id", target: "pipeline_rule", cascade: true }],
        indexes: vec![
            Index { name: "idx_pipeline_middleware_rule_id", columns: vec!["rule_id", "priority"], unique: false },
        ],
    };
    proof {
        let s = pipeline_middleware_table();
        assert(t.columns@ =~= s.columns);
        assert(t.foreign_keys@ =~= s.foreign_keys);
        assert(t.indexes@[0].columns@ =~= s.indexes[0].columns);
        assert(t@.indexes =~= s.indexes);
    }
    t
}

fn tracking_event_def() -> (t: TableDef)
    ensures
        t@ == tracking_event_table(),
{
    let t = TableDef {
        name: "tracking_event",
        columns: vec![
            Column { name: "id", kind: ColumnKind::Text, nullable: false, primary_key: true, unique: false, default: ColumnDefault::NoDefault },
            Column { name: "delivery_log_id", kind: ColumnKind::Text, nullable: true, primary_key: false, unique: false, default: ColumnDefault::NoDefault },
            Column { name: "event_type", kind: ColumnKind::Text, nullable: false, primary_key: false, unique: false, default: ColumnDefault::NoDefault },
            Column { name: "url", kind: ColumnKind::Text, nullable: true, primary_key: false, unique: false, default: ColumnDefault::NoDefault },
            Column { name: "created_at", kind: ColumnKind::Text, nullable: false, primary_key: false, unique: false, default: ColumnDefault::Now },
        ],
        foreign_keys: vec![],
        indexes: vec![
            Index { name: "idx_tracking_event_delivery", columns: vec!["delivery_log_id"], unique: false },
        ],
    };
    proof {
        let s = tracking_event_table();
        assert(t.columns@ =~= s.columns);
        assert(t.foreign_keys@ =~= s.foreign_keys);
        assert(t.indexes@[0].columns@ =~= s.indexes[0].columns);
        assert(t@.indexes =~= s.indexes);
    }
    t
}
/// The definition of the table `name`: `None` for a name the schema does
/// not have.
pub fn table_def(name: &str) -> (t: Option<TableDef>)
    ensures
        match table_spec(name@) {
            Some(s) => t matches Some(d) && d@ == s,
            None => t is None,
        },
{
    if str_eq(name, "project") {
        Some(project_def())
    } else if str_eq(name, "event") {
        Some(event_def())
    } else if str_eq(name, "pipeline_rule") {
        Some(pipeline_rule_def())
    } else if str_eq(name, "template") {
        Some(template_def())
    } else if str_eq(name, "template_version") {
        Some(template_version_def())
    } else if str_eq(name, "template_content") {
        Some(template_content_def())
    } else if str_eq(name, "recipient") {
        Some(recipient_def())
    } else if str_eq(name, "recipient_contact") {
        Some(recipient_contact_def())
    } else if str_eq(name, "recipient_preference") {
        Some(recipient_preference_def())
    } else if str_eq(name, "unsubscribe") {
        Some(unsubscribe_def())
    } else if str_eq(name, "delivery_log") {
        Some(delivery_log_def())
    } else if str_eq(name, "api_key") {
        Some(api_key_def())
    } else if str_eq(name, "idempotency_record") {
        Some(idempotency_record_def())
    } else if str_eq(name, "delivery_task") {
        Some(delivery_task_def())
    } else if str_eq(name, "credential") {
        Some(credential_def())
    } else if str_eq(name, "pipeline_middleware") {
        Some(pipeline_middleware_def())
    } else if str_eq(name, "tracking_event") {
        Some(tracking_event_def())
    } else {
        None
    }
}
proof fn lemma_project_well_formed()
    ensures
        table_well_formed(project_table()),
{
    let t = project_table();
}

proof fn lemma_event_well_formed()
    ensures
        table_well_formed(event_table()),
{
    let t = event_table();
    assert forall|i: int| 0 <= i < t.foreign_keys.len() implies has_column(t, #[trigger] t.foreign_keys[i].column) by {
        if i == 0 { assert(t.columns[1].name == t.foreign_keys[i].column); }
    }
    assert forall|i: int, j: int| 0 <= i < t.indexes.len() && 0 <= j < t.indexes[i].columns.len() implies has_column(t, #[trigger] t.indexes[i].columns[j]) by {
        if i == 0 && j == 0 { assert(t.columns[1].name == t.indexes[i].columns[j]); }
        if i == 0 && j == 1 { assert(t.columns[2].name == t.indexes[i].columns[j]); }
    }
}

proof fn lemma_pipeline_rule_well_formed()
    ensures
        table_well_formed(pipeline_rule_table()),
{
    let t = pipeline_rule_table();
    assert forall|i: int| 0 <= i < t.foreign_keys.len() implies has_column(t, #[trigger] t.foreign_keys[i].column) by {
        if i == 0 { assert(t.columns[1].name == t.foreign_keys[i].column); }
    }
}

proof fn lemma_template_well_formed()
    ensures
        table_well_formed(template_table()),
{
    let t = template_table();
    assert forall|i: int| 0 <= i < t.foreign_keys.len() implies has_column(t, #[trigger] t.foreign_keys[i].column) by {
        if i == 0 { assert(t.columns[1].name == t.foreign_keys[i].column); }
    }
    assert forall|i: int, j: int| 0 <= i < t.indexes.len() && 0 <= j < t.indexes[i].columns.len() implies has_column(t, #[trigger] t.indexes[i].columns[j]) by {
        if i == 0 && j == 0 { assert(t.columns[1].name == t.indexes[i].columns[j]); }
        if i == 0 && j == 1 { assert(t.columns[2].name == t.indexes[i].columns[j]); }
    }
}

proof fn lemma_template_version_well_formed()
    ensures
        table_well_formed(template_version_table()),
{
    let t = template_version_table();
    assert forall|i: int| 0 <= i < t.foreign_keys.len() implies has_column(t, #[trigger] t.foreign_keys[i].column) by {
        if i == 0 { assert(t.columns[1].name == t.foreign_keys[i].column); }
    }
    assert forall|i: int, j: int| 0 <= i < t.indexes.len() && 0 <= j < t.indexes[i].columns.len() implies has_column(t, #[trigger] t.indexes[i].columns[j]) by {
        if i == 0 && j == 0 { assert(t.columns[1].name == t.indexes[i].columns[j]); }
        if i == 0 && j == 1 { assert(t.columns[2].name == t.indexes[i].columns[j]); }
    }
}

proof fn lemma_template_content_well_formed()
    ensures
        table_well_formed(template_content_table()),
{
    let t = template_content_table();
    assert forall|i: int| 0 <= i < t.foreign_keys.len() implies has_column(t, #[trigger] t.foreign_keys[i].column) by {
        if i == 0 { assert(t.columns[1].name == t.foreign_keys[i].column); }
    }
    assert forall|i: int, j: int| 0 <= i < t.indexes.len() && 0 <= j < t.indexes[i].columns.len() implies has_column(t, #[trigger] t.indexes[i].columns[j]) by {
        if i == 0 && j == 0 { assert(t.columns[1].name == t.indexes[i].columns[j]); }
        if i == 0 && j == 1 { assert(t.columns[2].name == t.indexes[i].columns[j]); }
    }
}

proof fn lemma_recipient_well_formed()
    ensures
        table_well_formed(recipient_table()),
{
    let t = recipient_table();
    assert forall|i: int| 0 <= i < t.foreign_keys.len() implies has_column(t, #[trigger] t.foreign_keys[i].column) by {
        if i == 0 { assert(t.columns[1].name == t.foreign_keys[i].column); }
    }
    assert forall|i: int, j: int| 0 <= i < t.indexes.len() && 0 <= j < t.indexes[i].columns.len() implies has_column(t, #[trigger] t.indexes[i].columns[j]) by {
        if i == 0 && j == 0 { assert(t.columns[1].name == t.indexes[i].columns[j]); }
        if i == 0 && j == 1 { assert(t.columns[2].name == t.indexes[i].columns[j]); }
    }
}

proof fn lemma_recipient_contact_well_formed()
    ensures
        table_well_formed(recipient_contact_table()),
{
    let t = recipient_contact_table();
    assert forall|i: int| 0 <= i < t.foreign_keys.len() implies has_column(t, #[trigger] t.foreign_keys[i].column) by {
        if i == 0 { assert(t.columns[1].name == t.foreign_keys[i].column); }
    }
    assert forall|i: int, j: int| 0 <= i < t.indexes.len() && 0 <= j < t.indexes[i].columns.len() implies has_column(t, #[trigger] t.indexes[i].columns[j]) by {
        if i == 0 && j == 0 { assert(t.columns[1].name == t.indexes[i].columns[j]); }
        if i == 0 && j == 1 { assert(t.columns[2].name == t.indexes[i].columns[j]); }
        if i == 0 && j == 2 { assert(t.columns[3].name == t.indexes[i].columns[j]); }
    }
}

proof fn lemma_recipient_preference_well_formed()
    ensures
        table_well_formed(recipient_preference_table()),
{
    let t = recipient_preference_table();
    assert forall|i: int| 0 <= i < t.foreign_keys.len() implies has_column(t, #[trigger] t.foreign_keys[i].column) by {
        if i == 0 { assert(t.columns[1].name == t.foreign_keys[i].column); }
    }
    assert forall|i: int, j: int| 0 <= i < t.indexes.len() && 0 <= j < t.indexes[i].columns.len() implies has_column(t, #[trigger] t.indexes[i].columns[j]) by {
        if i == 0 && j == 0 { assert(t.columns[1].name == t.indexes[i].columns[j]); }
        if i == 0 && j == 1 { assert(t.columns[2].name == t.indexes[i].columns[j]); }
        if i == 0 && j == 2 { assert(t.columns[3].name == t.indexes[i].columns[j]); }
    }
}

proof fn lemma_unsubscribe_well_formed()
    ensures
        table_well_formed(unsubscribe_table()),
{
    let t = unsubscribe_table();
    assert forall|i: int| 0 <= i < t.foreign_keys.len() implies has_column(t, #[trigger] t.foreign_keys[i].column) by {
        if i == 0 { assert(t.columns[1].name == t.foreign_keys[i].column); }
        if i == 1 { assert(t.columns[2].name == t.foreign_keys[i].column); }
    }
    assert forall|i: int, j: int| 0 <= i < t.indexes.len() && 0 <= j < t.indexes[i].columns.len() implies has_column(t, #[trigger] t.indexes[i].columns[j]) by {
        if i == 0 && j == 0 { assert(t.columns[1].name == t.indexes[i].columns[j]); }
    }
}

proof fn lemma_delivery_log_well_formed()
    ensures
        table_well_formed(delivery_log_table()),
{
    let t = delivery_log_table();
    assert forall|i: int| 0 <= i < t.foreign_keys.len() implies has_column(t, #[trigger] t.foreign_keys[i].column) by {
        if i == 0 { assert(t.columns[1].name == t.foreign_keys[i].column); }
        if i == 1 { assert(t.columns[3].name == t.foreign_keys[i].column); }
    }
    assert forall|i: int, j: int| 0 <= i < t.indexes.len() && 0 <= j < t.indexes[i].columns.len() implies has_column(t, #[trigger] t.indexes[i].columns[j]) by {
        if i == 0 && j == 0 { assert(t.columns[1].name == t.indexes[i].columns[j]); }
        if i == 0 && j == 1 { assert(t.columns[8].name == t.indexes[i].columns[j]); }
        if i == 1 && j == 0 { assert(t.columns[3].name == t.indexes[i].columns[j]); }
        if i == 2 && j == 0 { assert(t.columns[5].name == t.indexes[i].columns[j]); }
    }
}

proof fn lemma_api_key_well_formed()
    ensures
        table_well_formed(api_key_table()),
{
    let t = api_key_table();
    assert forall|i: int| 0 <= i < t.foreign_keys.len() implies has_column(t, #[trigger] t.foreign_keys[i].column) by {
        if i == 0 { assert(t.columns[1].name == t.foreign_keys[i].column); }
    }
    assert forall|i: int, j: int| 0 <= i < t.indexes.len() && 0 <= j < t.indexes[i].columns.len() implies has_column(t, #[trigger] t.indexes[i].columns[j]) by {
        if i == 0 && j == 0 { assert(t.columns[1].name == t.indexes[i].columns[j]); }
    }
}

proof fn lemma_idempotency_record_well_formed()
    ensures
        table_well_formed(idempotency_record_table()),
{
    let t = idempotency_record_table();
    assert forall|i: int, j: int| 0 <= i < t.indexes.len() && 0 <= j < t.indexes[i].columns.len() implies has_column(t, #[trigger] t.indexes[i].columns[j]) by {
        if i == 0 && j == 0 { assert(t.columns[1].name == t.indexes[i].columns[j]); }
    }
}

proof fn lemma_delivery_task_well_formed()
    ensures
        table_well_formed(delivery_task_table()),
{
    let t = delivery_task_table();
    assert forall|i: int| 0 <= i < t.foreign_keys.len() implies has_column(t, #[trigger] t.foreign_keys[i].column) by {
        if i == 0 { assert(t.columns[1].name == t.foreign_keys[i].column); }
        if i == 1 { assert(t.columns[3].name == t.foreign_keys[i].column); }
    }
    assert forall|i: int, j: int| 0 <= i < t.indexes.len() && 0 <= j < t.indexes[i].columns.len() implies has_column(t, #[trigger] t.indexes[i].columns[j]) by {
        if i == 0 && j == 0 { assert(t.columns[8].name == t.indexes[i].columns[j]); }
        if i == 0 && j == 1 { assert(t.columns[12].name == t.indexes[i].columns[j]); }
        if i == 1 && j == 0 { assert(t.columns[1].name == t.indexes[i].columns[j]); }
    }
}

proof fn lemma_credential_well_formed()
    ensures
        table_well_formed(credential_table()),
{
    let t = credential_table();
    assert forall|i: int| 0 <= i < t.foreign_keys.len() implies has_column(t, #[trigger] t.foreign_keys[i].column) by {
        if i == 0 { assert(t.columns[1].name == t.foreign_keys[i].column); }
    }
    assert forall|i: int, j: int| 0 <= i < t.indexes.len() && 0 <= j < t.indexes[i].columns.len() implies has_column(t, #[trigger] t.indexes[i].columns[j]) by {
        if i == 0 && j == 0 { assert(t.columns[1].name == t.indexes[i].columns[j]); }
        if i == 0 && j == 1 { assert(t.columns[2].name == t.indexes[i].columns[j]); }
        if i == 1 && j == 0 { assert(t.columns[1].name == t.indexes[i].columns[j]); }
        if i == 1 && j == 1 { assert(t.columns[3].name == t.indexes[i].columns[j]); }
    }
}

proof fn lemma_pipeline_middleware_well_formed()
    ensures
        table_well_formed(pipeline_middleware_table()),
{
    let t = pipeline_middleware_table();
    assert forall|i: int| 0 <= i < t.foreign_keys.len() implies has_column(t, #[trigger] t.foreign_keys[i].column) by {
        if i == 0 { assert(t.columns[1].name == t.foreign_keys[i].column); }
    }
    assert forall|i: int, j: int| 0 <= i < t.indexes.len() && 0 <= j < t.indexes[i].columns.len() implies has_column(t, #[trigger] t.indexes[i].columns[j]) by {
        if i == 0 && j == 0 { assert(t.columns[1].name == t.indexes[i].columns[j]); }
        if i == 0 && j == 1 { assert(t.columns[4].name == t.indexes[i].columns[j]); }
    }
}

proof fn lemma_tracking_event_well_formed()
    ensures
        table_well_formed(tracking_event_table()),
{
    let t = tracking_event_table();
    assert forall|i: int, j: int| 0 <= i < t.indexes.len() && 0 <= j < t.indexes[i].columns.len() implies has_column(t, #[trigger] t.indexes[i].columns[j]) by {
        if i == 0 && j == 0 { assert(t.columns[1].name == t.indexes[i].columns[j]); }
    }
}
proof fn lemma_spec_of_project()
    ensures
        table_spec("project"@) == Some(project_table()),
{
    reveal_strlit("project");
}

proof fn lemma_spec_of_event()
    ensures
        table_spec("event"@) == Some(event_table()),
{
    reveal_strlit("event");
    reveal_strlit("project");
    assert("event"@.len() != "project"@.len());
}

proof fn lemma_spec_of_pipeline_rule()
    ensures
        table_spec("pipeline_rule"@) == Some(pipeline_rule_table()),
{
    reveal_strlit("pipeline_rule");
    reveal_strlit("project");
    assert("pipeline_rule"@.len() != "project"@.len());
    reveal_strlit("event");
    assert("pipeline_rule"@.len() != "event"@.len());
}

proof fn lemma_spec_of_template()
    ensures
        table_spec("template"@) == Some(template_table()),
{
    reveal_strlit("template");
    reveal_strlit("project");
    assert("template"@.len() != "project"@.len());
    reveal_strlit("event");
    assert("template"@.len() != "event"@.len());
    reveal_strlit("pipeline_rule");
    assert("template"@.len() != "pipeline_rule"@.len());
}

proof fn lemma_spec_of_template_version()
    ensures
        table_spec("template_version"@) == Some(template_version_table()),
{
    reveal_strlit("template_version");
    reveal_strlit("project");
    assert("template_version"@.len() != "project"@.len());
    reveal_strlit("event");
    assert("template_version"@.len() != "event"@.len());
    reveal_strlit("pipeline_rule");
    assert("template_version"@.len() != "pipeline_rule"@.len());
    reveal_strlit("template");
    assert("template_version"@.len() != "template"@.len());
}

proof fn lemma_spec_of_template_content()
    ensures
        table_spec("template_content"@) == Some(template_content_table()),
{
    reveal_strlit("template_content");
    reveal_strlit("project");
    assert("template_content"@.len() != "project"@.len());
    reveal_strlit("event");
    assert("template_content"@.len() != "event"@.len());
    reveal_strlit("pipeline_rule");
    assert("template_content"@.len() != "pipeline_rule"@.len());
    reveal_strlit("template");
    assert("template_content"@.len() != "template"@.len());
    reveal_strlit("template_version");
    assert("template_content"@[9] != "template_version"@[9]);
}

proof fn lemma_spec_of_recipient()
    ensures
        table_spec("recipient"@) == Some(recipient_table()),
{
    reveal_strlit("recipient");
    reveal_strlit("project");
    assert("recipient"@.len() != "project"@.len());
    reveal_strlit("event");
    assert("recipient"@.len() != "event"@.len());
    reveal_strlit("pipeline_rule");
    assert("recipient"@.len() != "pipeline_rule"@.len());
    reveal_strlit("template");
    assert("recipient"@.len() != "template"@.len());
    reveal_strlit("template_version");
    assert("recipient"@.len() != "template_version"@.len());
    reveal_strlit("template_content");
    assert("recipient"@.len() != "template_content"@.len());
}

proof fn lemma_spec_of_recipient_contact()
    ensures
        table_spec("recipient_contact"@) == Some(recipient_contact_table()),
{
    reveal_strlit("recipient_contact");
    reveal_strlit("project");
    assert("recipient_contact"@.len() != "project"@.len());
    reveal_strlit("event");
    assert("recipient_contact"@.len() != "event"@.len());
    reveal_strlit("pipeline_rule");
    assert("recipient_contact"@.len() != "pipeline_rule"@.len());
    reveal_strlit("template");
    assert("recipient_contact"@.len() != "template"@.len());
    reveal_strlit("template_version");
    assert("recipient_contact"@.len() != "template_version"@.len());
    reveal_strlit("template_content");
    assert("recipient_contact"@.len() != "template_content"@.len());
    reveal_strlit("recipient");
    assert("recipient_contact"@.len() != "recipient"@.len());
}

proof fn lemma_spec_of_recipient_preference()
    ensures
        table_spec("recipient_preference"@) == Some(recipient_preference_table()),
{
    reveal_strlit("recipient_preference");
    reveal_strlit("project");
    assert("recipient_preference"@.len() != "project"@.len());
    reveal_strlit("event");
    assert("recipient_preference"@.len() != "event"@.len());
    reveal_strlit("pipeline_rule");
    assert("recipient_preference"@.len() != "pipeline_rule"@.len());
    reveal_strlit("template");
    assert("recipient_preference"@.len() != "template"@.len());
    reveal_strlit("template_version");
    assert("recipient_preference"@.len() != "template_version"@.len());
    reveal_strlit("template_content");
    assert("recipient_preference"@.len() != "template_content"@.len());
    reveal_strlit("recipient");
    assert("recipient_preference"@.len() != "recipient"@.len());
    reveal_strlit("recipient_contact");
    assert("recipient_preference"@.len() != "recipient_contact"@.len());
}

proof fn lemma_spec_of_unsubscribe()
    ensures
        table_spec("unsubscribe"@) == Some(unsubscribe_table()),
{
    reveal_strlit("unsubscribe");
    reveal_strlit("project");
    assert("unsubscribe"@.len() != "project"@.len());
    reveal_strlit("event");
    assert("unsubscribe"@.len() != "event"@.len());
    reveal_strlit("pipeline_rule");
    assert("unsubscribe"@.len() != "pipeline_rule"@.len());
    reveal_strlit("template");
    assert("unsubscribe"@.len() != "template"@.len());
    reveal_strlit("template_version");
    assert("unsubscribe"@.len() != "template_version"@.len());
    reveal_strlit("template_content");
    assert("unsubscribe"@.len() != "template_content"@.len());
    reveal_strlit("recipient");
    assert("unsubscribe"@.len() != "recipient"@.len());
    reveal_strlit("recipient_contact");
    assert("unsubscribe"@.len() != "recipient_contact"@.len());
    reveal_strlit("recipient_preference");
    assert("unsubscribe"@.len() != "recipient_preference"@.len());
}

proof fn lemma_spec_of_delivery_log()
    ensures
        table_spec("delivery_log"@) == Some(delivery_log_table()),
{
    reveal_strlit("delivery_log");
    reveal_strlit("project");
    assert("delivery_log"@.len() != "project"@.len());
    reveal_strlit("event");
    assert("delivery_log"@.len() != "event"@.len());
    reveal_strlit("pipeline_rule");
    assert("delivery_log"@.len() != "pipeline_rule"@.len());
    reveal_strlit("template");
    assert("delivery_log"@.len() != "template"@.len());
    reveal_strlit("template_version");
    assert("delivery_log"@.len() != "template_version"@.len());
    reveal_strlit("template_content");
    assert("delivery_log"@.len() != "template_content"@.len());
    reveal_strlit("recipient");
    assert("delivery_log"@.len() != "recipient"@.len());
    reveal_strlit("recipient_contact");
    assert("delivery_log"@.len() != "recipient_contact"@.len());
    reveal_strlit("recipient_preference");
    assert("delivery_log"@.len() != "recipient_preference"@.len());
    reveal_strlit("unsubscribe");
    assert("delivery_log"@.len() != "unsubscribe"@.len());
}

proof fn lemma_spec_of_api_key()
    ensures
        table_spec("api_key"@) == Some(api_key_table()),
{
    reveal_strlit("api_key");
    reveal_strlit("project");
    assert("api_key"@[0] != "project"@[0]);
    reveal_strlit("event");
    assert("api_key"@.len() != "event"@.len());
    reveal_strlit("pipeline_rule");
    assert("api_key"@.len() != "pipeline_rule"@.len());
    reveal_strlit("template");
    assert("api_key"@.len() != "template"@.len());
    reveal_strlit("template_version");
    assert("api_key"@.len() != "template_version"@.len());
    reveal_strlit("template_content");
    assert("api_key"@.len() != "template_content"@.len());
    reveal_strlit("recipient");
    assert("api_key"@.len() != "recipient"@.len());
    reveal_strlit("recipient_contact");
    assert("api_key"@.len() != "recipient_contact"@.len());
    reveal_strlit("recipient_preference");
    assert("api_key"@.len() != "recipient_preference"@.len());
    reveal_strlit("unsubscribe");
    assert("api_key"@.len() != "unsubscribe"@.len());
    reveal_strlit("delivery_log");
    assert("api_key"@.len() != "delivery_log"@.len());
}

proof fn lemma_spec_of_idempotency_record()
    ensures
        table_spec("idempotency_record"@) == Some(idempotency_record_table()),
{
    reveal_strlit("idempotency_record");
    reveal_strlit("project");
    assert("idempotency_record"@.len() != "project"@.len());
    reveal_strlit("event");
    assert("idempotency_record"@.len() != "event"@.len());
    reveal_strlit("pipeline_rule");
    assert("idempotency_record"@.len() != "pipeline_rule"@.len());
    reveal_strlit("template");
    assert("idempotency_record"@.len() != "template"@.len());
    reveal_strlit("template_version");
    assert("idempotency_record"@.len() != "template_version"@.len());
    reveal_strlit("template_content");
    assert("idempotency_record"@.len() != "template_content"@.len());
    reveal_strlit("recipient");
    assert("idempotency_record"@.len() != "recipient"@.len());
    reveal_strlit("recipient_contact");
    assert("idempotency_record"@.len() != "recipient_contact"@.len());
    reveal_strlit("recipient_preference");
    assert("idempotency_record"@.len() != "recipient_preference"@.len());
    reveal_strlit("unsubscribe");
    assert("idempotency_record"@.len() != "unsubscribe"@.len());
    reveal_strlit("delivery_log");
    assert("idempotency_record"@.len() != "delivery_log"@.len());
    reveal_strlit("api_key");
    assert("idempotency_record"@.len() != "api_key"@.len());
}

proof fn lemma_spec_of_delivery_task()
    ensures
        table_spec("delivery_task"@) == Some(delivery_task_table()),
{
    reveal_strlit("delivery_task");
    reveal_strlit("project");
    assert("delivery_task"@.len() != "project"@.len());
    reveal_strlit("event");
    assert("delivery_task"@.len() != "event"@.len());
    reveal_strlit("pipeline_rule");
    assert("delivery_task"@[0] != "pipeline_rule"@[0]);
    reveal_strlit("template");
    assert("delivery_task"@.len() != "template"@.len());
    reveal_strlit("template_version");
    assert("delivery_task"@.len() != "template_version"@.len());
    reveal_strlit("template_content");
    assert("delivery_task"@.len() != "template_content"@.len());
    reveal_strlit("recipient");
    assert("delivery_task"@.len() != "recipient"@.len());
    reveal_strlit("recipient_contact");
    assert("delivery_task"@.len() != "recipient_contact"@.len());
    reveal_strlit("recipient_preference");
    assert("delivery_task"@.len() != "recipient_preference"@.len());
    reveal_strlit("unsubscribe");
    assert("delivery_task"@.len() != "unsubscribe"@.len());
    reveal_strlit("delivery_log");
    assert("delivery_task"@.len() != "delivery_log"@.len());
    reveal_strlit("api_key");
    assert("delivery_task"@.len() != "api_key"@.len());
    reveal_strlit("idempotency_record");
    assert("delivery_task"@.len() != "idempotency_record"@.len());
}

proof fn lemma_spec_of_credential()
    ensures
        table_spec("credential"@) == Some(credential_table()),
{
    reveal_strlit("credential");
    reveal_strlit("project");
    assert("credential"@.len() != "project"@.len());
    reveal_strlit("event");
    assert("credential"@.len() != "event"@.len());
    reveal_strlit("pipeline_rule");
    assert("credential"@.len() != "pipeline_rule"@.len());
    reveal_strlit("template");
    assert("credential"@.len() != "template"@.len());
    reveal_strlit("template_version");
    assert("credential"@.len() != "template_version"@.len());
    reveal_strlit("template_content");
    assert("credential"@.len() != "template_content"@.len());
    reveal_strlit("recipient");
    assert("credential"@.len() != "recipient"@.len());
    reveal_strlit("recipient_contact");
    assert("credential"@.len() != "recipient_contact"@.len());
    reveal_strlit("recipient_preference");
    assert("credential"@.len() != "recipient_preference"@.len());
    reveal_strlit("unsubscribe");
    assert("credential"@.len() != "unsubscribe"@.len());
    reveal_strlit("delivery_log");
    assert("credential"@.len() != "delivery_log"@.len());
    reveal_strlit("api_key");
    assert("credential"@.len() != "api_key"@.len());
    reveal_strlit("idempotency_record");
    assert("credential"@.len() != "idempotency_record"@.len());
    reveal_strlit("delivery_task");
    assert("credential"@.len() != "delivery_task"@.len());
}

proof fn lemma_spec_of_pipeline_middleware()
    ensures
        table_spec("pipeline_middleware"@) == Some(pipeline_middleware_table()),
{
    reveal_strlit("pipeline_middleware");
    reveal_strlit("project");
    assert("pipeline_middleware"@.len() != "project"@.len());
    reveal_strlit("event");
    assert("pipeline_middleware"@.len() != "event"@.len());
    reveal_strlit("pipeline_rule");
    assert("pipeline_middleware"@.len() != "pipeline_rule"@.len());
    reveal_strlit("template");
    assert("pipeline_middleware"@.len() != "template"@.len());
    reveal_strlit("template_version");
    assert("pipeline_middleware"@.len() != "template_version"@.len());
    reveal_strlit("template_content");
    assert("pipeline_middleware"@.len() != "template_content"@.len());
    reveal_strlit("recipient");
    assert("pipeline_middleware"@.len() != "recipient"@.len());
    reveal_strlit("recipient_contact");
    assert("pipeline_middleware"@.len() != "recipient_contact"@.len());
    reveal_strlit("recipient_preference");
    assert("pipeline_middleware"@.len() != "recipient_preference"@.len());
    reveal_strlit("unsubscribe");
    assert("pipeline_middleware"@.len() != "unsubscribe"@.len());
    reveal_strlit("delivery_log");
    assert("pipeline_middleware"@.len() != "delivery_log"@.len());
    reveal_strlit("api_key");
    assert("pipeline_middleware"@.len() != "api_key"@.len());
    reveal_strlit("idempotency_record");
    assert("pipeline_middleware"@.len() != "idempotency_record"@.len());
    reveal_strlit("delivery_task");
    assert("pipeline_middleware"@.len() != "delivery_task"@.len());
    reveal_strlit("credential");
    assert("pipeline_middleware"@.len() != "credential"@.len());
}

proof fn lemma_spec_of_tracking_event()
    ensures
        table_spec("tracking_event"@) == Some(tracking_event_table()),
{
    reveal_strlit("tracking_event");
    reveal_strlit("project");
    assert("tracking_event"@.len() != "project"@.len());
    reveal_strlit("event");
    assert("tracking_event"@.len() != "event"@.len());
    reveal_strlit("pipeline_rule");
    assert("tracking_event"@.len() != "pipeline_rule"@.len());
    reveal_strlit("template");
    assert("tracking_event"@.len() != "template"@.len());
    reveal_strlit("template_version");
    assert("tracking_event"@.len() != "template_version"@.len());
    reveal_strlit("template_content");
    assert("tracking_event"@.len() != "template_content"@.len());
    reveal_strlit("recipient");
    assert("tracking_event"@.len() != "recipient"@.len());
    reveal_strlit("recipient_contact");
    assert("tracking_event"@.len() != "recipient_contact"@.len());
    reveal_strlit("recipient_preference");
    assert("tracking_event"@.len() != "recipient_preference"@.len());
    reveal_strlit("unsubscribe");
    assert("tracking_event"@.len() != "unsubscribe"@.len());
    reveal_strlit("delivery_log");
    assert("tracking_event"@.len() != "delivery_log"@.len());
    reveal_strlit("api_key");
    assert("tracking_event"@.len() != "api_key"@.len());
    reveal_strlit("idempotency_record");
    assert("tracking_event"@.len() != "idempotency_record"@.len());
    reveal_strlit("delivery_task");
    assert("tracking_event"@.len() != "delivery_task"@.len());
    reveal_strlit("credential");
    assert("tracking_event"@.len() != "credential"@.len());
    reveal_strlit("pipeline_middleware");
    assert("tracking_event"@.len() != "pipeline_middleware"@.len());
}
/// The definition of column `column` that a migration adds to the existing
/// table `table`, if the schema has one.
pub open spec fn added_column_spec(table: Seq<char>, column: Seq<char>) -> Option<Column> {
    if table == "delivery_task"@ && column == "rule_id"@ {
        Some(
            Column {
                name: "rule_id",
                kind: ColumnKind::Uuid,
                nullable: true,
                primary_key: false,
                unique: false,
                default: ColumnDefault::NoDefault,
            },
        )
    } else {
        None
    }
}

/// The definition of column `column` that a migration adds to `table`:
/// `None` for a column no migration adds.
pub fn added_column_def(table: &str, column: &str) -> (c: Option<Column>)
    ensures
        c == added_column_spec(table@, column@),
{
    if str_eq(table, "delivery_task") && str_eq(column, "rule_id") {
        Some(
            Column {
                name: "rule_id",
                kind: ColumnKind::Uuid,
                nullable: true,
                primary_key: false,
                unique: false,
                default: ColumnDefault::NoDefault,
            },
        )
    } else {
        None
    }
}

// ── Laws ────────────────────────────────────────────────────────────────

/// Every table the migration plan creates has a definition of that name,
/// well formed, whose foreign keys reference exactly the tables the plan
/// records for it, in order (so, with the plan's own law, only tables
/// created before it).
pub proof fn lemma_plan_tables_defined()
    ensures
        forall|m: int, i: int|
            0 <= m < plan_names().len() && 0 <= i < plan_tables(m).len() ==> {
                let s = #[trigger] table_spec(plan_tables(m)[i].0);
                &&& s is Some
                &&& s.unwrap().name@ == plan_tables(m)[i].0
                &&& fk_targets(s.unwrap()) == plan_tables(m)[i].1
                &&& table_well_formed(s.unwrap())
            },
{
    assert forall|m: int, i: int|
        0 <= m < plan_names().len() && 0 <= i < plan_tables(m).len() implies {
        let s = #[trigger] table_spec(plan_tables(m)[i].0);
        &&& s is Some
        &&& s.unwrap().name@ == plan_tables(m)[i].0
        &&& fk_targets(s.unwrap()) == plan_tables(m)[i].1
        &&& table_well_formed(s.unwrap())
    } by {
        if m == 0 && i == 0 {
            lemma_spec_of_project();
            lemma_project_well_formed();
            assert(fk_targets(project_table()) =~= seq![]);
        }
        if m == 1 && i == 0 {
            lemma_spec_of_event();
            lemma_event_well_formed();
            assert(fk_targets(event_table()) =~= seq!["project"@]);
        }
        if m == 1 && i == 1 {
            lemma_spec_of_pipeline_rule();
            lemma_pipeline_rule_well_formed();
            assert(fk_targets(pipeline_rule_table()) =~= seq!["event"@]);
        }
        if m == 2 && i == 0 {
            lemma_spec_of_template();
            lemma_template_well_formed();
            assert(fk_targets(template_table()) =~= seq!["project"@]);
        }
        if m == 2 && i == 1 {
            lemma_spec_of_template_version();
            lemma_template_version_well_formed();
            assert(fk_targets(template_version_table()) =~= seq!["template"@]);
        }
        if m == 2 && i == 2 {
            lemma_spec_of_template_content();
            lemma_template_content_well_formed();
            assert(fk_targets(template_content_table()) =~= seq!["template_version"@]);
        }
        if m == 3 && i == 0 {
            lemma_spec_of_recipient();
            lemma_recipient_well_formed();
            assert(fk_targets(recipient_table()) =~= seq!["project"@]);
        }
        if m == 3 && i == 1 {
            lemma_spec_of_recipient_contact();
            lemma_recipient_contact_well_formed();
            assert(fk_targets(recipient_contact_table()) =~= seq!["recipient"@]);
        }
        if m == 3 && i == 2 {
            lemma_spec_of_recipient_preference();
            lemma_recipient_preference_well_formed();
            assert(fk_targets(recipient_preference_table()) =~= seq!["recipient"@]);
        }
        if m == 3 && i == 3 {
            lemma_spec_of_unsubscribe();
            lemma_unsubscribe_well_formed();
            assert(fk_targets(unsubscribe_table()) =~= seq!["recipient"@, "event"@]);
        }
        if m == 4 && i == 0 {
            lemma_spec_of_delivery_log();
            lemma_delivery_log_well_formed();
            assert(fk_targets(delivery_log_table()) =~= seq!["project"@, "recipient"@]);
        }
        if m == 5 && i == 0 {
            lemma_spec_of_api_key();
            lemma_api_key_well_formed();
            assert(fk_targets(api_key_table()) =~= seq!["project"@]);
        }
        if m == 6 && i == 0 {
            lemma_spec_of_idempotency_record();
            lemma_idempotency_record_well_formed();
            assert(fk_targets(idempotency_record_table()) =~= seq![]);
        }
        if m == 7 && i == 0 {
            lemma_spec_of_delivery_task();
            lemma_delivery_task_well_formed();
            assert(fk_targets(delivery_task_table()) =~= seq!["project"@, "recipient"@]);
        }
        if m == 8 && i == 0 {
            lemma_spec_of_credential();
            lemma_credential_well_formed();
            assert(fk_targets(credential_table()) =~= seq!["project"@]);
        }
        if m == 9 && i == 0 {
            lemma_spec_of_pipeline_middleware();
            lemma_pipeline_middleware_well_formed();
            assert(fk_targets(pipeline_middleware_table()) =~= seq!["pipeline_rule"@]);
        }
        if m == 11 && i == 0 {
            lemma_spec_of_tracking_event();
            lemma_tracking_event_well_formed();
            assert(fk_targets(tracking_event_table()) =~= seq![]);
        }
    }
}
/// Every column the migration plan adds has a definition of that name.
pub proof fn lemma_plan_columns_defined()
    ensures
        forall|m: int, k: int|
            0 <= m < plan_names().len() && 0 <= k < plan_columns(m).len() ==> {
                let c = #[trigger] added_column_spec(plan_columns(m)[k].0, plan_columns(m)[k].1);
                &&& c is Some
                &&& c.unwrap().name@ == plan_columns(m)[k].1
            },
{
}

} // verus!
