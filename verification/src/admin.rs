//! Rules of the admin API: request defaults, paging, the admin scope and the
//! recipient rows it lists.
use vstd::prelude::*;

use crate::auth::{admin_scope, AuthContext, AuthError};
use crate::ids::{parse_uuid_field, spec_uuid_parse, uuid_field};
use crate::json::{empty_object, parse_json, spec_json_error, spec_json_parse_str};

verus! {

/// Default locale of a created project or recipient.
pub fn default_locale() -> (s: String)
    ensures
        s@ == "en"@,
{
    String::from_str("en")
}

/// Rules are enabled unless the request says otherwise.
pub fn default_true() -> (b: bool)
    ensures
        b,
{
    true
}

/// Default timezone of a created recipient.
pub fn default_timezone() -> (s: String)
    ensures
        s@ == "UTC"@,
{
    String::from_str("UTC")
}

/// Default page size of the delivery log.
pub fn default_limit() -> (n: u64)
    ensures
        n == 50,
{
    50
}

/// Default scope of a created API key.
pub fn default_scope() -> (s: String)
    ensures
        s@ == "ingest"@,
{
    String::from_str("ingest")
}

/// The largest delivery-log page served.
pub open spec fn max_page() -> u64 {
    200
}

/// The page size actually queried: the requested one, at most 200.
pub fn page_limit(requested: u64) -> (n: u64)
    ensures
        n == if requested < max_page() { requested } else { max_page() },
{
    if requested < 200 { requested } else { 200 }
}

/// Admin endpoints need the `admin` scope.
pub fn require_admin(auth: &AuthContext) -> (res: Result<(), AuthError>)
    ensures
        res is Ok <==> auth.scope@ == admin_scope(),
{
    proof {
        reveal_strlit("admin");
    }
    assert("admin"@ =~= admin_scope());
    auth.require_scope("admin")
}

/// The locale a template preview renders in: the requested one, else `en`.
pub fn preview_locale(requested: Option<&str>) -> (s: &str)
    ensures
        requested matches Some(r) ==> s@ == r@,
        requested is None ==> s@ == "en"@,
{
    match requested {
        Some(r) => r,
        None => "en",
    }
}

/// Deleting a project is a no-op for the nil id.
pub fn deletes_project(id: u128) -> (b: bool)
    ensures
        b == (id != 0),
{
    id != 0
}

/// A recipient as the admin API lists it.
#[derive(Debug, Clone)]
pub struct RecipientAdminRow {
    pub id: u128,
    pub external_id: String,
    pub locale: String,
    pub timezone: String,
    pub metadata: serde_json::Value,
}

/// A recipient as the database returns it: id and metadata as text.
#[derive(Debug, Clone)]
pub struct RecipientAdminRaw {
    pub id: String,
    pub external_id: String,
    pub locale: String,
    pub timezone: String,
    pub metadata: String,
}

impl RecipientAdminRaw {
    /// Reads the row: the id must be a UUID; metadata that is not JSON reads
    /// as an empty object.
    pub fn into_row(self) -> (res: Result<RecipientAdminRow, String>)
        ensures
            match res {
                Ok(row) => spec_uuid_parse(self.id@) == Ok::<u128, Seq<char>>(row.id)
                    && row.external_id == self.external_id && row.locale == self.locale
                    && row.timezone == self.timezone && (spec_json_error(self.metadata@) is None
                    ==> row.metadata == spec_json_parse_str(self.metadata@)),
                Err(e) => uuid_field("invalid UUID: "@, self.id@) == Err::<u128, Seq<char>>(e@),
            },
    {
        proof {
            reveal_strlit("invalid UUID: ");
        }
        let id = match parse_uuid_field("invalid UUID: ", self.id.as_str()) {
            Ok(u) => u,
            Err(e) => return Err(e),
        };
        let metadata = match parse_json(self.metadata.as_str()) {
            Ok(v) => v,
            Err(_) => empty_object(),
        };
        Ok(RecipientAdminRow {
            id,
            external_id: self.external_id,
            locale: self.locale,
            timezone: self.timezone,
            metadata,
        })
    }
}

/// A project.
#[derive(Debug, Clone)]
pub struct ProjectRow {
    pub id: u128,
    pub name: String,
    pub default_locale: String,
    pub settings: serde_json::Value,
}

/// A project as the database returns it: id and settings as text.
#[derive(Debug, Clone)]
pub struct ProjectRaw {
    pub id: String,
    pub name: String,
    pub default_locale: String,
    pub settings: String,
}

impl ProjectRaw {
    /// Reads the row: the id must be a UUID; settings that are not JSON read
    /// as an empty object.
    pub fn into_row(self) -> (res: Result<ProjectRow, String>)
        ensures
            match res {
                Ok(row) => spec_uuid_parse(self.id@) == Ok::<u128, Seq<char>>(row.id) && row.name
                    == self.name && row.default_locale == self.default_locale && (spec_json_error(
                    self.settings@,
                ) is None ==> row.settings == spec_json_parse_str(self.settings@)),
                Err(e) => uuid_field("invalid UUID: "@, self.id@) == Err::<u128, Seq<char>>(e@),
            },
    {
        proof {
            reveal_strlit("invalid UUID: ");
        }
        let id = match parse_uuid_field("invalid UUID: ", self.id.as_str()) {
            Ok(u) => u,
            Err(e) => return Err(e),
        };
        let settings = match parse_json(self.settings.as_str()) {
            Ok(v) => v,
            Err(_) => empty_object(),
        };
        Ok(ProjectRow { id, name: self.name, default_locale: self.default_locale, settings })
    }
}

/// An event as the admin API lists it.
#[derive(Debug, Clone)]
pub struct EventRow {
    pub id: u128,
    pub project_id: u128,
    pub name: String,
    pub category: String,
    pub description: String,
}

/// An event as the database returns it: ids as text.
#[derive(Debug, Clone)]
pub struct EventRaw {
    pub id: String,
    pub project_id: String,
    pub name: String,
    pub category: String,
    pub description: String,
}

impl EventRaw {
    /// Reads the row, its ids parsed.
    pub fn into_row(self) -> (res: Result<EventRow, String>)
        ensures
            match res {
                Ok(row) => spec_uuid_parse(self.id@) == Ok::<u128, Seq<char>>(row.id)
                    && spec_uuid_parse(self.project_id@) == Ok::<u128, Seq<char>>(row.project_id)
                    && row.name == self.name && row.category == self.category && row.description
                    == self.description,
                Err(e) => if uuid_field("invalid UUID: "@, self.id@) is Err {
                    uuid_field("invalid UUID: "@, self.id@) == Err::<u128, Seq<char>>(e@)
                } else {
                    uuid_field("invalid UUID: "@, self.project_id@) == Err::<u128, Seq<char>>(e@)
                },
            },
    {
        proof {
            reveal_strlit("invalid UUID: ");
        }
        let id = match parse_uuid_field("invalid UUID: ", self.id.as_str()) {
            Ok(u) => u,
            Err(e) => return Err(e),
        };
        let project_id = match parse_uuid_field("invalid UUID: ", self.project_id.as_str()) {
            Ok(u) => u,
            Err(e) => return Err(e),
        };
        Ok(EventRow {
            id,
            project_id,
            name: self.name,
            category: self.category,
            description: self.description,
        })
    }
}

/// A pipeline rule as the admin API lists it.
#[derive(Debug, Clone)]
pub struct RuleRow {
    pub id: u128,
    pub event_id: u128,
    pub channel: String,
    pub template_id: u128,
    pub enabled: bool,
    pub priority: i32,
}

/// A pipeline rule as the database returns it: ids as text.
#[derive(Debug, Clone)]
pub struct RuleRaw {
    pub id: String,
    pub event_id: String,
    pub channel: String,
    pub template_id: String,
    pub enabled: bool,
    pub priority: i32,
}

/// The error of the first id of a raw rule that is no UUID, if any: the id,
/// the event id, then the template id.
pub open spec fn rule_raw_error(raw: RuleRaw) -> Option<Seq<char>> {
    if uuid_field("invalid UUID: "@, raw.id@) is Err {
        Some(uuid_field("invalid UUID: "@, raw.id@)->Err_0)
    } else if uuid_field("invalid UUID: "@, raw.event_id@) is Err {
        Some(uuid_field("invalid UUID: "@, raw.event_id@)->Err_0)
    } else if uuid_field("invalid UUID: "@, raw.template_id@) is Err {
        Some(uuid_field("invalid UUID: "@, raw.template_id@)->Err_0)
    } else {
        None
    }
}

impl RuleRaw {
    /// Reads the row, its ids parsed.
    pub fn into_row(self) -> (res: Result<RuleRow, String>)
        ensures
            res is Ok <==> rule_raw_error(self) is None,
            res matches Err(e) ==> rule_raw_error(self) == Some(e@),
            res matches Ok(row) ==> {
                &&& spec_uuid_parse(self.id@) == Ok::<u128, Seq<char>>(row.id)
                &&& spec_uuid_parse(self.event_id@) == Ok::<u128, Seq<char>>(row.event_id)
                &&& spec_uuid_parse(self.template_id@) == Ok::<u128, Seq<char>>(row.template_id)
                &&& row.channel == self.channel
                &&& row.enabled == self.enabled
                &&& row.priority == self.priority
            },
    {
        proof {
            reveal_strlit("invalid UUID: ");
        }
        let id = match parse_uuid_field("invalid UUID: ", self.id.as_str()) {
            Ok(u) => u,
            Err(e) => return Err(e),
        };
        let event_id = match parse_uuid_field("invalid UUID: ", self.event_id.as_str()) {
            Ok(u) => u,
            Err(e) => return Err(e),
        };
        let template_id = match parse_uuid_field("invalid UUID: ", self.template_id.as_str()) {
            Ok(u) => u,
            Err(e) => return Err(e),
        };
        Ok(RuleRow {
            id,
            event_id,
            channel: self.channel,
            template_id,
            enabled: self.enabled,
            priority: self.priority,
        })
    }
}

/// A template as the admin API lists it.
#[derive(Debug, Clone)]
pub struct TemplateRow {
    pub id: u128,
    pub project_id: u128,
    pub name: String,
    pub channel: String,
}

/// A template as the database returns it: ids as text.
#[derive(Debug, Clone)]
pub struct TemplateRaw {
    pub id: String,
    pub project_id: String,
    pub name: String,
    pub channel: String,
}

impl TemplateRaw {
    /// Reads the row, its ids parsed.
    pub fn into_row(self) -> (res: Result<TemplateRow, String>)
        ensures
            match res {
                Ok(row) => spec_uuid_parse(self.id@) == Ok::<u128, Seq<char>>(row.id)
                    && spec_uuid_parse(self.project_id@) == Ok::<u128, Seq<char>>(row.project_id)
                    && row.name == self.name && row.channel == self.channel,
                Err(e) => if uuid_field("invalid UUID: "@, self.id@) is Err {
                    uuid_field("invalid UUID: "@, self.id@) == Err::<u128, Seq<char>>(e@)
                } else {
                    uuid_field("invalid UUID: "@, self.project_id@) == Err::<u128, Seq<char>>(e@)
                },
            },
    {
        proof {
            reveal_strlit("invalid UUID: ");
        }
        let id = match parse_uuid_field("invalid UUID: ", self.id.as_str()) {
            Ok(u) => u,
            Err(e) => return Err(e),
        };
        let project_id = match parse_uuid_field("invalid UUID: ", self.project_id.as_str()) {
            Ok(u) => u,
            Err(e) => return Err(e),
        };
        Ok(TemplateRow { id, project_id, name: self.name, channel: self.channel })
    }
}

} // verus!
