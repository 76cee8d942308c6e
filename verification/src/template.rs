//! Template resolution (the requested locale first, then the project's
//! default) and the rows it reads: resolved contents and pipeline rules.
use vstd::prelude::*;

use crate::ids::{parse_uuid_field, spec_uuid_parse, uuid_field};
use crate::text::str_eq;

verus! {

/// The locale to try when the requested one has no content: the default
/// locale, unless it is the one that was just tried.
pub fn fallback_locale(requested: &str, default_locale: &str) -> (f: Option<String>)
    ensures
        requested@ == default_locale@ ==> f is None,
        requested@ != default_locale@ ==> (f matches Some(d) && d@ == default_locale@),
{
    if str_eq(requested, default_locale) {
        None
    } else {
        Some(String::from_str(default_locale))
    }
}

/// The SQL that fetches the current version's content of a template in one
/// locale; the template id and the locale are bound as parameters.
pub fn resolve_template_query() -> (sql: &'static str)
    ensures
        sql@ == "SELECT t.id AS template_id, t.name AS template_name, t.channel, tv.version, tc.locale, tc.body FROM template t JOIN template_version tv ON tv.template_id = t.id AND tv.is_current = true JOIN template_content tc ON tc.template_version_id = tv.id WHERE t.id = ? AND tc.locale = ? LIMIT 1"@,
{
    "SELECT t.id AS template_id, t.name AS template_name, t.channel, tv.version, tc.locale, tc.body FROM template t JOIN template_version tv ON tv.template_id = t.id AND tv.is_current = true JOIN template_content tc ON tc.template_version_id = tv.id WHERE t.id = ? AND tc.locale = ? LIMIT 1"
}

/// The statement that writes a template's content in one locale.
pub open spec fn set_content_statement_spec(existing: bool) -> Seq<char> {
    if existing {
        "UPDATE template_content SET body = ?, updated_at = CURRENT_TIMESTAMP WHERE id = ?"@
    } else {
        "INSERT INTO template_content (id, template_version_id, locale, body) VALUES (?, ?, ?, ?)"@
    }
}

/// How a template's content in one locale is written: an existing row is
/// updated, else one is inserted.
pub fn set_content_statement(existing: bool) -> (sql: &'static str)
    ensures
        sql@ == set_content_statement_spec(existing),
{
    if existing {
        "UPDATE template_content SET body = ?, updated_at = CURRENT_TIMESTAMP WHERE id = ?"
    } else {
        "INSERT INTO template_content (id, template_version_id, locale, body) VALUES (?, ?, ?, ?)"
    }
}

/// The current version a template's content is written to: the one found,
/// or the error a template without a current version gives.
pub fn current_version(found: Option<String>) -> (res: Result<String, String>)
    ensures
        found matches Some(v) ==> res == Ok::<String, String>(v),
        found is None ==> (res matches Err(m) && m@ == "No current version found"@),
{
    match found {
        Some(v) => Ok(v),
        None => Err(String::from_str("No current version found")),
    }
}

/// The write of a template's content in one locale on version `version_id`:
/// the statement of `set_content_statement` and its parameters in order: the
/// body and the existing row's id, or a new row's id, the version, the locale
/// and the body.
pub fn content_write(
    version_id: String,
    existing: Option<String>,
    new_id: String,
    locale: String,
    body: String,
) -> (w: (&'static str, Vec<String>))
    ensures
        w.0@ == set_content_statement_spec(existing is Some),
        existing matches Some(c) ==> w.1@ == seq![body, c],
        existing is None ==> w.1@ == seq![new_id, version_id, locale, body],
{
    let sql = set_content_statement(existing.is_some());
    match existing {
        Some(c) => (sql, vec![body, c]),
        None => (sql, vec![new_id, version_id, locale, body]),
    }
}

/// A template's content resolved for a locale.
#[derive(Debug, Clone)]
pub struct ResolvedTemplate {
    pub template_id: u128,
    pub template_name: String,
    pub channel: String,
    pub version: i32,
    pub locale: String,
    pub body: serde_json::Value,
}

/// A resolved template as the database returns it: the id as text.
#[derive(Debug, Clone)]
pub struct ResolvedTemplateRaw {
    pub template_id: String,
    pub template_name: String,
    pub channel: String,
    pub version: i32,
    pub locale: String,
    pub body: serde_json::Value,
}

impl ResolvedTemplateRaw {
    /// Reads the row, its id parsed.
    pub fn into_resolved(self) -> (res: Result<ResolvedTemplate, String>)
        ensures
            match res {
                Ok(t) => spec_uuid_parse(self.template_id@) == Ok::<u128, Seq<char>>(t.template_id)
                    && t.template_name == self.template_name && t.channel == self.channel && t.version
                    == self.version && t.locale == self.locale && t.body == self.body,
                Err(e) => uuid_field("invalid template_id UUID: "@, self.template_id@) == Err::<
                    u128,
                    Seq<char>,
                >(e@),
            },
    {
        proof {
            reveal_strlit("invalid template_id UUID: ");
        }
        let template_id = match parse_uuid_field("invalid template_id UUID: ", self.template_id.as_str()) {
            Ok(u) => u,
            Err(e) => return Err(e),
        };
        Ok(ResolvedTemplate {
            template_id,
            template_name: self.template_name,
            channel: self.channel,
            version: self.version,
            locale: self.locale,
            body: self.body,
        })
    }
}

/// An enabled rule of an event's pipeline.
#[derive(Debug, Clone)]
pub struct PipelineRuleRow {
    pub id: u128,
    pub channel: String,
    pub template_id: u128,
    pub enabled: bool,
    pub conditions: Option<serde_json::Value>,
    pub priority: i32,
}

/// A pipeline rule as the database returns it: ids as text.
#[derive(Debug, Clone)]
pub struct PipelineRuleRaw {
    pub id: String,
    pub channel: String,
    pub template_id: String,
    pub enabled: bool,
    pub conditions: Option<serde_json::Value>,
    pub priority: i32,
}

impl PipelineRuleRaw {
    /// Reads the row, its ids parsed.
    pub fn into_row(self) -> (res: Result<PipelineRuleRow, String>)
        ensures
            match res {
                Ok(r) => spec_uuid_parse(self.id@) == Ok::<u128, Seq<char>>(r.id)
                    && spec_uuid_parse(self.template_id@) == Ok::<u128, Seq<char>>(r.template_id)
                    && r.channel == self.channel && r.enabled == self.enabled && r.conditions
                    == self.conditions && r.priority == self.priority,
                Err(e) => if uuid_field("invalid pipeline_rule id UUID: "@, self.id@) is Err {
                    uuid_field("invalid pipeline_rule id UUID: "@, self.id@) == Err::<u128, Seq<char>>(e@)
                } else {
                    uuid_field("invalid template_id UUID: "@, self.template_id@) == Err::<u128, Seq<char>>(e@)
                },
            },
    {
        proof {
            reveal_strlit("invalid pipeline_rule id UUID: ");
            reveal_strlit("invalid template_id UUID: ");
        }
        let id = match parse_uuid_field("invalid pipeline_rule id UUID: ", self.id.as_str()) {
            Ok(u) => u,
            Err(e) => return Err(e),
        };
        let template_id = match parse_uuid_field("invalid template_id UUID: ", self.template_id.as_str()) {
            Ok(u) => u,
            Err(e) => return Err(e),
        };
        Ok(PipelineRuleRow {
            id,
            channel: self.channel,
            template_id,
            enabled: self.enabled,
            conditions: self.conditions,
            priority: self.priority,
        })
    }
}

/// An event of a project, with its category.
#[derive(Debug, Clone)]
pub struct EventRow {
    pub id: u128,
    pub project_id: u128,
    pub name: String,
    pub category: String,
}

/// An event as the database returns it: ids as text.
#[derive(Debug, Clone)]
pub struct EventRaw {
    pub id: String,
    pub project_id: String,
    pub name: String,
    pub category: String,
}

impl EventRaw {
    /// Reads the row, its ids parsed.
    pub fn into_row(self) -> (res: Result<EventRow, String>)
        ensures
            match res {
                Ok(r) => spec_uuid_parse(self.id@) == Ok::<u128, Seq<char>>(r.id)
                    && spec_uuid_parse(self.project_id@) == Ok::<u128, Seq<char>>(r.project_id)
                    && r.name == self.name && r.category == self.category,
                Err(e) => if uuid_field("invalid event id UUID: "@, self.id@) is Err {
                    uuid_field("invalid event id UUID: "@, self.id@) == Err::<u128, Seq<char>>(e@)
                } else {
                    uuid_field("invalid project_id UUID: "@, self.project_id@) == Err::<u128, Seq<char>>(e@)
                },
            },
    {
        proof {
            reveal_strlit("invalid event id UUID: ");
            reveal_strlit("invalid project_id UUID: ");
        }
        let id = match parse_uuid_field("invalid event id UUID: ", self.id.as_str()) {
            Ok(u) => u,
            Err(e) => return Err(e),
        };
        let project_id = match parse_uuid_field("invalid project_id UUID: ", self.project_id.as_str()) {
            Ok(u) => u,
            Err(e) => return Err(e),
        };
        Ok(EventRow { id, project_id, name: self.name, category: self.category })
    }
}

} // verus!
