//! Event ingestion: the fan-out of one event to its recipients over the
//! event's pipeline rules, as a state machine. The application performs each
//! action (database calls, template rendering) and hands the outcome back;
//! the machine decides what comes next and collects task ids and errors.
use vstd::prelude::*;

use crate::contacts::{choose_contact, select_contact};
use crate::idempotency::{idempotency_key, make_idempotency_key};
use crate::ids::{uuid_hyphenated, uuid_to_string};
use crate::json::{clone_pairs, pairs_view};

verus! {

/// A pipeline rule of an event.
pub struct RuleInfo {
    pub id: u128,
    pub channel: String,
    pub template_id: u128,
}

/// A recipient named by an ingested event, with its inline contacts as
/// (channel, value) pairs.
pub struct RecipientInput {
    pub id: String,
    pub contacts: Vec<(String, String)>,
}

/// The plain view of the rules: (id, channel, template id).
pub open spec fn rules_view(v: Seq<RuleInfo>) -> Seq<(u128, Seq<char>, u128)> {
    v.map_values(|r: RuleInfo| (r.id, r.channel@, r.template_id))
}

/// The plain view of the recipients: (external id, inline contacts).
pub open spec fn recipients_view(v: Seq<RecipientInput>) -> Seq<(Seq<char>, Seq<(Seq<char>, Seq<char>)>)> {
    v.map_values(|r: RecipientInput| (r.id@, pairs_view(r.contacts@)))
}

/// The view of an optional string.
pub open spec fn opt_string(s: Option<String>) -> Option<Seq<char>> {
    match s {
        Some(x) => Some(x@),
        None => None,
    }
}

/// The view of a list of strings.
pub open spec fn strings(v: Seq<String>) -> Seq<Seq<char>> {
    v.map_values(|s: String| s@)
}

/// The view of an optional list of strings.
pub open spec fn opt_strings(v: Option<Vec<String>>) -> Option<Seq<Seq<char>>> {
    match v {
        Some(x) => Some(strings(x@)),
        None => None,
    }
}

/// A result with its error message taken by its view.
pub open spec fn err_view<T>(r: Result<T, String>) -> Result<T, Seq<char>> {
    match r {
        Ok(x) => Ok(x),
        Err(e) => Err(e@),
    }
}

/// The view of a recipient lookup's outcome.
pub open spec fn found_view(r: Result<Option<String>, String>) -> Result<Option<Seq<char>>, Seq<char>> {
    match r {
        Ok(found) => Ok(opt_string(found)),
        Err(e) => Err(e@),
    }
}

/// The view of a contacts load's outcome.
pub open spec fn loaded_view(r: Result<Vec<(String, String)>, String>) -> Result<
    Seq<(Seq<char>, Seq<char>)>,
    Seq<char>,
> {
    match r {
        Ok(cs) => Ok(pairs_view(cs@)),
        Err(e) => Err(e@),
    }
}

/// The view of a template lookup's outcome: whether content was found.
pub open spec fn template_view(r: Result<Option<serde_json::Value>, String>) -> Result<bool, Seq<char>> {
    match r {
        Ok(found) => Ok(found is Some),
        Err(e) => Err(e@),
    }
}

/// Where an ingestion stands.
#[derive(Debug, Clone, Copy, PartialEq, Eq, Structural)]
pub enum IngestStage {
    Ready,
    AwaitUpsert,
    AwaitContactsStored,
    AwaitFind,
    AwaitContacts,
    AwaitIdempotency,
    AwaitTemplate,
    AwaitPipeline,
    AwaitEnqueue,
    Done,
    Aborted,
}

/// The plain view of an ingestion.
pub struct IngestView {
    pub event_name: Seq<char>,
    pub idempotency_key: Option<Seq<char>>,
    pub default_locale: Seq<char>,
    pub rules: Seq<(u128, Seq<char>, u128)>,
    pub recipients: Seq<(Seq<char>, Seq<(Seq<char>, Seq<char>)>)>,
    pub stage: IngestStage,
    pub r: int,
    pub k: int,
    pub recipient_id: u128,
    pub locale: Seq<char>,
    pub stored_contacts: Seq<(Seq<char>, Seq<char>)>,
    pub contact: Seq<char>,
    pub pending_task: u128,
    pub task_ids: Seq<u128>,
    pub errors: Seq<Seq<char>>,
}

/// What the application is asked to do next.
pub enum IngestAction {
    /// Upsert the recipient by external id, and report its internal id.
    UpsertRecipient { external_id: String },
    /// Upsert each inline contact of the recipient (failures are only logged).
    StoreContacts { recipient_id: u128, contacts: Vec<(String, String)> },
    /// Look the recipient up by external id, and report its locale if found.
    FindRecipient { external_id: String },
    /// Load the recipient's stored contacts as (channel, value) pairs.
    LoadContacts { recipient_id: u128 },
    /// Check and record the idempotency key; report whether it was a duplicate.
    CheckIdempotency { key: String },
    /// Resolve the template in the locale, falling back to the default locale.
    ResolveTemplate { template_id: u128, locale: String, default_locale: String },
    /// Render the template into a delivery task; report the task id.
    RunPipeline {
        recipient_id: u128,
        locale: String,
        channel: String,
        contact_value: String,
        template_body: serde_json::Value,
        idempotency_key: Option<String>,
        max_attempts: u32,
    },
    /// Enqueue the task the pipeline produced.
    Enqueue,
    /// Stop and answer with this status and message.
    Abort { status: u16, message: String },
    /// Answer with the accepted count, the task ids and the errors.
    Finish { accepted: usize, task_ids: Vec<u128>, errors: Vec<String> },
}

/// The plain view of an action (the template body is left out).
pub enum IngestStep {
    UpsertRecipient(Seq<char>),
    StoreContacts(u128, Seq<(Seq<char>, Seq<char>)>),
    FindRecipient(Seq<char>),
    LoadContacts(u128),
    CheckIdempotency(Seq<char>),
    ResolveTemplate(u128, Seq<char>, Seq<char>),
    RunPipeline(u128, Seq<char>, Seq<char>, Seq<char>, Option<Seq<char>>, u32),
    Enqueue,
    Abort(u16, Seq<char>),
    Finish(nat, Seq<u128>, Seq<Seq<char>>),
}

impl View for IngestAction {
    type V = IngestStep;

    open spec fn view(&self) -> IngestStep {
        match self {
            IngestAction::UpsertRecipient { external_id } => IngestStep::UpsertRecipient(external_id@),
            IngestAction::StoreContacts { recipient_id, contacts } => IngestStep::StoreContacts(
                *recipient_id,
                pairs_view(contacts@),
            ),
            IngestAction::FindRecipient { external_id } => IngestStep::FindRecipient(external_id@),
            IngestAction::LoadContacts { recipient_id } => IngestStep::LoadContacts(*recipient_id),
            IngestAction::CheckIdempotency { key } => IngestStep::CheckIdempotency(key@),
            IngestAction::ResolveTemplate { template_id, locale, default_locale } =>
                IngestStep::ResolveTemplate(*template_id, locale@, default_locale@),
            IngestAction::RunPipeline {
                recipient_id,
                locale,
                channel,
                contact_value,
                template_body,
                idempotency_key,
                max_attempts,
            } => IngestStep::RunPipeline(
                *recipient_id,
                locale@,
                channel@,
                contact_value@,
                opt_string(*idempotency_key),
                *max_attempts,
            ),
            IngestAction::Enqueue => IngestStep::Enqueue,
            IngestAction::Abort { status, message } => IngestStep::Abort(*status, message@),
            IngestAction::Finish { accepted, task_ids, errors } => IngestStep::Finish(
                *accepted as nat,
                task_ids@,
                strings(errors@),
            ),
        }
    }
}

// ── Messages ────────────────────────────────────────────────────────────

/// The error answered when the event has no rules.
pub open spec fn no_rules_message(event_name: Seq<char>) -> Seq<char> {
    "No pipeline rules configured for event: "@ + event_name
}

/// A recipient that could not be upserted.
pub open spec fn resolve_recipient_error(external_id: Seq<char>, e: Seq<char>) -> Seq<char> {
    "Failed to resolve recipient "@ + external_id + ": "@ + e
}

/// A recipient without a contact on a rule's channel.
pub open spec fn no_contact_error(external_id: Seq<char>, channel: Seq<char>) -> Seq<char> {
    "No contact for recipient "@ + external_id + " on channel "@ + channel
}

/// A rule whose template has no content in the locale or the default locale.
pub open spec fn template_missing_error(rule_id: u128, template_id: u128, locale: Seq<char>) -> Seq<
    char,
> {
    "Template not found for rule "@ + uuid_hyphenated(rule_id) + " (template_id: "@ + uuid_hyphenated(
        template_id,
    ) + ", locale: "@ + locale + ")"@
}

/// A template lookup that failed.
pub open spec fn template_error(e: Seq<char>) -> Seq<char> {
    "Template resolution error: "@ + e
}

/// A rendering that failed.
pub open spec fn pipeline_error(external_id: Seq<char>, channel: Seq<char>, e: Seq<char>) -> Seq<char> {
    "Pipeline error for recipient "@ + external_id + " channel "@ + channel + ": "@ + e
}

/// An enqueue that failed.
pub open spec fn enqueue_error(external_id: Seq<char>, channel: Seq<char>, e: Seq<char>) -> Seq<char> {
    "Failed to enqueue task for recipient "@ + external_id + " channel "@ + channel + ": "@ + e
}

// ── Transitions ─────────────────────────────────────────────────────────

/// Whether the current recipient has a contact on rule `i`'s channel.
pub open spec fn has_contact(v: IngestView, i: int) -> bool {
    select_contact(v.recipients[v.r].1, v.stored_contacts, v.rules[i].1) is Some
}

/// The first rule from `i` on that the current recipient has a contact for
/// (the number of rules when there is none).
pub open spec fn next_contact_rule(v: IngestView, i: int) -> int
    decreases v.rules.len() - i,
{
    if i >= v.rules.len() || i < 0 {
        v.rules.len() as int
    } else if has_contact(v, i) {
        i
    } else {
        next_contact_rule(v, i + 1)
    }
}

/// The errors of the rules skipped from `i` on for lack of a contact.
pub open spec fn skip_errors(v: IngestView, i: int) -> Seq<Seq<char>>
    decreases v.rules.len() - i,
{
    if i >= v.rules.len() || i < 0 || has_contact(v, i) {
        Seq::empty()
    } else {
        seq![no_contact_error(v.recipients[v.r].0, v.rules[i].1)] + skip_errors(v, i + 1)
    }
}

/// Moving on to recipient `r`: upsert it, or answer when all are done.
pub open spec fn next_recipient(v: IngestView) -> (IngestView, IngestStep) {
    if v.r < v.recipients.len() {
        (IngestView { stage: IngestStage::AwaitUpsert, ..v }, IngestStep::UpsertRecipient(v.recipients[v.r].0))
    } else {
        (
            IngestView { stage: IngestStage::Done, ..v },
            IngestStep::Finish(v.task_ids.len(), v.task_ids, v.errors),
        )
    }
}

/// Moving on to rule `k` of the current recipient: rules without a contact are
/// skipped with an error; for the first with one, the idempotency key is
/// checked (when the event has one) or the template resolved; after the last
/// rule, the next recipient follows.
pub open spec fn scan_rules(v: IngestView) -> (IngestView, IngestStep) {
    let j = next_contact_rule(v, v.k);
    let errors = v.errors + skip_errors(v, v.k);
    if j < v.rules.len() {
        let c = select_contact(v.recipients[v.r].1, v.stored_contacts, v.rules[j].1).unwrap();
        let w = IngestView { k: j, errors: errors, contact: c, ..v };
        match v.idempotency_key {
            Some(ck) => (
                IngestView { stage: IngestStage::AwaitIdempotency, ..w },
                IngestStep::CheckIdempotency(
                    idempotency_key(v.event_name, v.recipient_id, v.rules[j].1, Some(ck)),
                ),
            ),
            None => (
                IngestView { stage: IngestStage::AwaitTemplate, ..w },
                IngestStep::ResolveTemplate(v.rules[j].2, v.locale, v.default_locale),
            ),
        }
    } else {
        next_recipient(IngestView { k: j, r: v.r + 1, errors: errors, ..v })
    }
}

/// Done with rule `k` of the current recipient, with or without an error.
pub open spec fn rule_done(v: IngestView, error: Option<Seq<char>>) -> (IngestView, IngestStep) {
    let errors = match error {
        Some(e) => v.errors.push(e),
        None => v.errors,
    };
    scan_rules(IngestView { k: v.k + 1, errors: errors, ..v })
}

/// The upsert of the current recipient came back: on success its inline
/// contacts are stored; on failure the recipient is skipped with an error.
pub open spec fn recipient_upserted(v: IngestView, res: Result<u128, Seq<char>>) -> (IngestView, IngestStep) {
    match res {
        Ok(id) => (
            IngestView { stage: IngestStage::AwaitContactsStored, recipient_id: id, ..v },
            IngestStep::StoreContacts(id, v.recipients[v.r].1),
        ),
        Err(e) => next_recipient(
            IngestView {
                r: v.r + 1,
                errors: v.errors.push(resolve_recipient_error(v.recipients[v.r].0, e)),
                ..v
            },
        ),
    }
}

/// The inline contacts are stored: the recipient is looked up for its locale.
pub open spec fn contacts_stored(v: IngestView) -> (IngestView, IngestStep) {
    (
        IngestView { stage: IngestStage::AwaitFind, ..v },
        IngestStep::FindRecipient(v.recipients[v.r].0),
    )
}

/// The lookup of the recipient came back: its locale, or the default locale
/// when it was not found; a failed lookup ends the ingestion with status 500.
pub open spec fn recipient_found(v: IngestView, res: Result<Option<Seq<char>>, Seq<char>>) -> (
    IngestView,
    IngestStep,
) {
    match res {
        Ok(found) => {
            let locale = match found {
                Some(l) => l,
                None => v.default_locale,
            };
            (
                IngestView { stage: IngestStage::AwaitContacts, locale: locale, ..v },
                IngestStep::LoadContacts(v.recipient_id),
            )
        },
        Err(e) => (IngestView { stage: IngestStage::Aborted, ..v }, IngestStep::Abort(500, e)),
    }
}

/// The stored contacts came back: the rules are scanned from the first; a
/// failed load ends the ingestion with status 500.
pub open spec fn contacts_loaded(v: IngestView, res: Result<Seq<(Seq<char>, Seq<char>)>, Seq<char>>) -> (
    IngestView,
    IngestStep,
) {
    match res {
        Ok(cs) => scan_rules(IngestView { k: 0, stored_contacts: cs, ..v }),
        Err(e) => (IngestView { stage: IngestStage::Aborted, ..v }, IngestStep::Abort(500, e)),
    }
}

/// The idempotency check came back: a duplicate skips the rule silently;
/// otherwise (also when the check failed) the template is resolved.
pub open spec fn idempotency_checked(v: IngestView, res: Result<bool, Seq<char>>) -> (IngestView, IngestStep) {
    if res == Ok::<bool, Seq<char>>(true) {
        rule_done(v, None)
    } else {
        (
            IngestView { stage: IngestStage::AwaitTemplate, ..v },
            IngestStep::ResolveTemplate(v.rules[v.k].2, v.locale, v.default_locale),
        )
    }
}

/// The template lookup came back (`Ok(true)` when content was found): the
/// pipeline runs with five attempts at most; a missing template or a failed
/// lookup is an error of the rule.
pub open spec fn template_resolved(v: IngestView, res: Result<bool, Seq<char>>) -> (IngestView, IngestStep) {
    match res {
        Ok(true) => (
            IngestView { stage: IngestStage::AwaitPipeline, ..v },
            IngestStep::RunPipeline(
                v.recipient_id,
                v.locale,
                v.rules[v.k].1,
                v.contact,
                v.idempotency_key,
                5,
            ),
        ),
        Ok(false) => rule_done(v, Some(template_missing_error(v.rules[v.k].0, v.rules[v.k].2, v.locale))),
        Err(e) => rule_done(v, Some(template_error(e))),
    }
}

/// The pipeline came back with a task id, or failed (an error of the rule).
pub open spec fn pipeline_ran(v: IngestView, res: Result<u128, Seq<char>>) -> (IngestView, IngestStep) {
    match res {
        Ok(id) => (
            IngestView { stage: IngestStage::AwaitEnqueue, pending_task: id, ..v },
            IngestStep::Enqueue,
        ),
        Err(e) => rule_done(v, Some(pipeline_error(v.recipients[v.r].0, v.rules[v.k].1, e))),
    }
}

/// The enqueue came back: the task is counted, or the rule has an error.
pub open spec fn enqueued(v: IngestView, res: Result<(), Seq<char>>) -> (IngestView, IngestStep) {
    match res {
        Ok(_) => rule_done(IngestView { task_ids: v.task_ids.push(v.pending_task), ..v }, None),
        Err(e) => rule_done(v, Some(enqueue_error(v.recipients[v.r].0, v.rules[v.k].1, e))),
    }
}

/// The start: an event without rules is answered at once with an error.
pub open spec fn start(v: IngestView) -> (IngestView, IngestStep) {
    if v.rules.len() == 0 {
        let errors = v.errors.push(no_rules_message(v.event_name));
        (
            IngestView { stage: IngestStage::Done, errors: errors, ..v },
            IngestStep::Finish(v.task_ids.len(), v.task_ids, errors),
        )
    } else {
        next_recipient(v)
    }
}

// ── Laws ────────────────────────────────────────────────────────────────

/// Scanning from rule `i`: the first rule the recipient has a contact for,
/// the rules skipped before it having none, each with its error in order.
proof fn lemma_scan_from(v: IngestView, i: int)
    requires
        0 <= i <= v.rules.len(),
    ensures
        i <= next_contact_rule(v, i) <= v.rules.len(),
        next_contact_rule(v, i) < v.rules.len() ==> has_contact(v, next_contact_rule(v, i)),
        forall|m: int| i <= m < next_contact_rule(v, i) ==> !has_contact(v, m),
        skip_errors(v, i).len() == next_contact_rule(v, i) - i,
        forall|m: int|
            i <= m < next_contact_rule(v, i) ==> skip_errors(v, i)[m - i] == no_contact_error(
                v.recipients[v.r].0,
                v.rules[m].1,
            ),
    decreases v.rules.len() - i,
{
    if i < v.rules.len() && !has_contact(v, i) {
        lemma_scan_from(v, i + 1);
        assert forall|m: int| i <= m < next_contact_rule(v, i) implies skip_errors(v, i)[m - i]
            == no_contact_error(v.recipients[v.r].0, v.rules[m].1) by {
            if m > i {
                assert(skip_errors(v, i)[m - i] == skip_errors(v, i + 1)[m - (i + 1)]);
            }
        }
    }
}

/// Whether `out` goes on from rule `v.k` of the current recipient with the
/// errors `errors` and task ids `task_ids` collected: when a later rule has a
/// contact, the same recipient continues with the first such rule (its key
/// checked, or its template resolved when the event has no key), each rule
/// between leaving its missing-contact error; otherwise the next recipient
/// is upserted, or the ingestion answers.
pub open spec fn continues_with_recipient(
    v: IngestView,
    errors: Seq<Seq<char>>,
    task_ids: Seq<u128>,
    out: (IngestView, IngestStep),
) -> bool {
    let w = out.0;
    &&& w.task_ids == task_ids
    &&& errors.is_prefix_of(w.errors)
    &&& (exists|j: int| v.k < j < v.rules.len() && #[trigger] has_contact(v, j)) ==> {
        &&& w.r == v.r
        &&& v.k < w.k < v.rules.len()
        &&& has_contact(v, w.k)
        &&& (forall|m: int| v.k < m < w.k ==> !#[trigger] has_contact(v, m))
        &&& w.errors.len() == errors.len() + (w.k - v.k - 1)
        &&& (forall|m: int|
            v.k < m < w.k ==> #[trigger] w.errors[errors.len() + (m - v.k - 1)] == no_contact_error(
                v.recipients[v.r].0,
                v.rules[m].1,
            ))
        &&& (v.idempotency_key is Some ==> out.1 == IngestStep::CheckIdempotency(
            idempotency_key(v.event_name, v.recipient_id, v.rules[w.k].1, v.idempotency_key),
        ))
        &&& (v.idempotency_key is None ==> out.1 == IngestStep::ResolveTemplate(
            v.rules[w.k].2,
            v.locale,
            v.default_locale,
        ))
    }
    &&& !(exists|j: int| v.k < j < v.rules.len() && #[trigger] has_contact(v, j)) ==> {
        &&& w.r == v.r + 1
        &&& (v.r + 1 < v.recipients.len() ==> out.1 == IngestStep::UpsertRecipient(
            v.recipients[v.r + 1].0,
        ))
        &&& (v.r + 1 == v.recipients.len() ==> out.1 == IngestStep::Finish(
            task_ids.len(),
            task_ids,
            w.errors,
        ))
    }
}

proof fn lemma_rule_done_continues(v: IngestView, error: Option<Seq<char>>)
    requires
        0 <= v.r < v.recipients.len(),
        0 <= v.k < v.rules.len(),
    ensures
        continues_with_recipient(
            v,
            match error {
                Some(e) => v.errors.push(e),
                None => v.errors,
            },
            v.task_ids,
            rule_done(v, error),
        ),
{
    let errors = match error {
        Some(e) => v.errors.push(e),
        None => v.errors,
    };
    let u = IngestView { k: v.k + 1, errors: errors, ..v };
    lemma_scan_from(u, v.k + 1);
    let j = next_contact_rule(u, v.k + 1);
    assert forall|m: int| v.k < m < v.rules.len() implies has_contact(u, m) == has_contact(v, m) by {}
    let errs = errors + skip_errors(u, v.k + 1);
    assert(errors.is_prefix_of(errs)) by {
        assert(errs.subrange(0, errors.len() as int) =~= errors);
    }
    assert forall|m: int| v.k < m < j implies #[trigger] errs[errors.len() + (m - v.k - 1)]
        == no_contact_error(v.recipients[v.r].0, v.rules[m].1) by {
        assert(errs[errors.len() + (m - v.k - 1)] == skip_errors(u, v.k + 1)[m - (v.k + 1)]);
    }
    if exists|jj: int| v.k < jj < v.rules.len() && #[trigger] has_contact(v, jj) {
        let jj = choose|jj: int| v.k < jj < v.rules.len() && #[trigger] has_contact(v, jj);
        assert(j <= jj);
    } else {
        if j < v.rules.len() {
            assert(has_contact(v, j));
        }
    }
}

/// Every outcome of a rule other than a go-ahead keeps to the recipient: a
/// missing template, a failed template lookup, a failed rendering, a failed
/// or a successful enqueue, and a duplicate key each end rule `k` only (with
/// its error, or its task counted) and go on with the same recipient's next
/// rule that it has a contact for; the recipient is left only after its last
/// such rule.
pub proof fn lemma_rule_outcomes_keep_the_recipient(v: IngestView, e: Seq<char>)
    requires
        0 <= v.r < v.recipients.len(),
        0 <= v.k < v.rules.len(),
    ensures
        continues_with_recipient(v, v.errors, v.task_ids, idempotency_checked(v, Ok(true))),
        continues_with_recipient(
            v,
            v.errors.push(template_missing_error(v.rules[v.k].0, v.rules[v.k].2, v.locale)),
            v.task_ids,
            template_resolved(v, Ok(false)),
        ),
        continues_with_recipient(v, v.errors.push(template_error(e)), v.task_ids, template_resolved(v, Err(e))),
        continues_with_recipient(
            v,
            v.errors.push(pipeline_error(v.recipients[v.r].0, v.rules[v.k].1, e)),
            v.task_ids,
            pipeline_ran(v, Err(e)),
        ),
        continues_with_recipient(
            v,
            v.errors.push(enqueue_error(v.recipients[v.r].0, v.rules[v.k].1, e)),
            v.task_ids,
            enqueued(v, Err(e)),
        ),
        continues_with_recipient(v, v.errors, v.task_ids.push(v.pending_task), enqueued(v, Ok(()))),
{
    lemma_rule_done_continues(v, None);
    lemma_rule_done_continues(v, Some(template_missing_error(v.rules[v.k].0, v.rules[v.k].2, v.locale)));
    lemma_rule_done_continues(v, Some(template_error(e)));
    lemma_rule_done_continues(v, Some(pipeline_error(v.recipients[v.r].0, v.rules[v.k].1, e)));
    lemma_rule_done_continues(v, Some(enqueue_error(v.recipients[v.r].0, v.rules[v.k].1, e)));
    let t = IngestView { task_ids: v.task_ids.push(v.pending_task), ..v };
    lemma_rule_done_continues(t, None);
    assert forall|m: int| v.k < m < v.rules.len() implies has_contact(t, m) == has_contact(v, m) by {}
}

/// A duplicate delivery skips only its own channel. When the idempotency
/// check of rule `k` of recipient `r` finds the key already recorded, nothing
/// is counted and the same recipient goes on with its next rule that it has a
/// contact for (the rules between, without a contact, each leave their
/// error): that rule's key is checked next. Only when no later rule has a
/// contact does the ingestion move on to the next recipient (or answer).
/// Any other answer resolves the template of rule `k` for the same recipient.
pub proof fn lemma_duplicate_skips_only_its_channel(v: IngestView, res: Result<bool, Seq<char>>)
    requires
        0 <= v.r < v.recipients.len(),
        0 <= v.k < v.rules.len(),
        v.idempotency_key is Some,
    ensures
        res != Ok::<bool, Seq<char>>(true) ==> {
            &&& idempotency_checked(v, res).0.r == v.r
            &&& idempotency_checked(v, res).0.k == v.k
            &&& idempotency_checked(v, res).0.task_ids == v.task_ids
            &&& idempotency_checked(v, res).0.errors == v.errors
            &&& idempotency_checked(v, res).1 == IngestStep::ResolveTemplate(
                v.rules[v.k].2,
                v.locale,
                v.default_locale,
            )
        },
        res == Ok::<bool, Seq<char>>(true) ==> idempotency_checked(v, res).0.task_ids == v.task_ids,
        res == Ok::<bool, Seq<char>>(true) && (exists|j: int| v.k < j < v.rules.len() && #[trigger] has_contact(v, j))
            ==> {
            let w = idempotency_checked(v, res).0;
            &&& w.r == v.r
            &&& v.k < w.k < v.rules.len()
            &&& has_contact(v, w.k)
            &&& (forall|m: int| v.k < m < w.k ==> !#[trigger] has_contact(v, m))
            &&& idempotency_checked(v, res).1 == IngestStep::CheckIdempotency(
                idempotency_key(v.event_name, v.recipient_id, v.rules[w.k].1, v.idempotency_key),
            )
            &&& w.errors.len() == v.errors.len() + (w.k - v.k - 1)
            &&& v.errors.is_prefix_of(w.errors)
            &&& forall|m: int|
                v.k < m < w.k ==> #[trigger] w.errors[v.errors.len() + (m - v.k - 1)] == no_contact_error(
                    v.recipients[v.r].0,
                    v.rules[m].1,
                )
        },
        res == Ok::<bool, Seq<char>>(true) && !(exists|j: int| v.k < j < v.rules.len() && #[trigger] has_contact(v, j))
            ==> {
            let w = idempotency_checked(v, res).0;
            &&& w.r == v.r + 1
            &&& (v.r + 1 < v.recipients.len() ==> idempotency_checked(v, res).1
                == IngestStep::UpsertRecipient(v.recipients[v.r + 1].0))
            &&& (v.r + 1 == v.recipients.len() ==> idempotency_checked(v, res).1 == IngestStep::Finish(
                v.task_ids.len(),
                v.task_ids,
                w.errors,
            ))
        },
{
    if res == Ok::<bool, Seq<char>>(true) {
        let u = IngestView { k: v.k + 1, errors: v.errors, ..v };
        lemma_scan_from(u, v.k + 1);
        let j = next_contact_rule(u, v.k + 1);
        assert forall|m: int| v.k < m < v.rules.len() implies has_contact(u, m) == has_contact(v, m) by {}
        let errs = v.errors + skip_errors(u, v.k + 1);
        if exists|jj: int| v.k < jj < v.rules.len() && #[trigger] has_contact(v, jj) {
            let jj = choose|jj: int| v.k < jj < v.rules.len() && #[trigger] has_contact(v, jj);
            assert(j <= jj);
            assert(j < v.rules.len());
            assert(idempotency_checked(v, res).0.errors == errs);
            assert(v.errors.is_prefix_of(errs)) by {
                assert(errs.subrange(0, v.errors.len() as int) =~= v.errors);
            }
            assert forall|m: int| v.k < m < j implies #[trigger] errs[v.errors.len() + (m - v.k - 1)]
                == no_contact_error(v.recipients[v.r].0, v.rules[m].1) by {
                assert(errs[v.errors.len() + (m - v.k - 1)] == skip_errors(u, v.k + 1)[m - (v.k + 1)]);
            }
        } else {
            if j < v.rules.len() {
                assert(has_contact(v, j));
            }
        }
    }
}


/// Whether a step keeps what an ingestion has collected: the task ids and the
/// errors collected before come first, unchanged, in those after the step; and
/// a `Finish` answer counts exactly the task ids it lists.
pub open spec fn keeps_history(v: IngestView, out: (IngestView, IngestStep)) -> bool {
    &&& v.task_ids.is_prefix_of(out.0.task_ids)
    &&& v.errors.is_prefix_of(out.0.errors)
    &&& (out.1 matches IngestStep::Finish(n, ids, _) ==> n == ids.len())
}

proof fn lemma_next_recipient_keeps(v: IngestView)
    ensures
        keeps_history(v, next_recipient(v)),
{
    assert(v.task_ids.is_prefix_of(v.task_ids));
    assert(v.errors.is_prefix_of(v.errors));
}

proof fn lemma_scan_rules_keeps(v: IngestView)
    ensures
        keeps_history(v, scan_rules(v)),
{
    let errors = v.errors + skip_errors(v, v.k);
    assert(v.errors.is_prefix_of(errors)) by {
        assert(errors.subrange(0, v.errors.len() as int) =~= v.errors);
    }
    let j = next_contact_rule(v, v.k);
    if j >= v.rules.len() {
        let w = IngestView { k: j, r: v.r + 1, errors: errors, ..v };
        lemma_next_recipient_keeps(w);
    }
    assert(v.task_ids.is_prefix_of(v.task_ids));
}

proof fn lemma_rule_done_keeps(v: IngestView, error: Option<Seq<char>>)
    ensures
        keeps_history(v, rule_done(v, error)),
{
    let errors = match error {
        Some(e) => v.errors.push(e),
        None => v.errors,
    };
    let w = IngestView { k: v.k + 1, errors: errors, ..v };
    lemma_scan_rules_keeps(w);
    assert(v.errors.is_prefix_of(errors)) by {
        assert(errors.subrange(0, v.errors.len() as int) =~= v.errors);
    }
}

/// Every step of an ingestion keeps the task ids and the errors collected so
/// far, and every answer's accepted count is the number of task ids it lists.
pub proof fn lemma_ingest_keeps_history(
    v: IngestView,
    id: Result<u128, Seq<char>>,
    found: Result<Option<Seq<char>>, Seq<char>>,
    loaded: Result<Seq<(Seq<char>, Seq<char>)>, Seq<char>>,
    flag: Result<bool, Seq<char>>,
    done: Result<(), Seq<char>>,
)
    ensures
        keeps_history(v, start(v)),
        keeps_history(v, recipient_upserted(v, id)),
        keeps_history(v, contacts_stored(v)),
        keeps_history(v, recipient_found(v, found)),
        keeps_history(v, contacts_loaded(v, loaded)),
        keeps_history(v, idempotency_checked(v, flag)),
        keeps_history(v, template_resolved(v, flag)),
        keeps_history(v, pipeline_ran(v, id)),
        keeps_history(v, enqueued(v, done)),
{
    assert(v.task_ids.is_prefix_of(v.task_ids));
    assert(v.errors.is_prefix_of(v.errors));
    if v.rules.len() != 0 {
        lemma_next_recipient_keeps(v);
    } else {
        let errors = v.errors.push(no_rules_message(v.event_name));
        assert(v.errors.is_prefix_of(errors)) by {
            assert(errors.subrange(0, v.errors.len() as int) =~= v.errors);
        }
    }
    match id {
        Ok(_) => {},
        Err(e) => {
            let w = IngestView {
                r: v.r + 1,
                errors: v.errors.push(resolve_recipient_error(v.recipients[v.r].0, e)),
                ..v
            };
            lemma_next_recipient_keeps(w);
            assert(v.errors.is_prefix_of(w.errors)) by {
                assert(w.errors.subrange(0, v.errors.len() as int) =~= v.errors);
            }
            lemma_rule_done_keeps(v, Some(pipeline_error(v.recipients[v.r].0, v.rules[v.k].1, e)));
        },
    }
    match loaded {
        Ok(cs) => lemma_scan_rules_keeps(IngestView { k: 0, stored_contacts: cs, ..v }),
        Err(_) => {},
    }
    lemma_rule_done_keeps(v, None);
    match flag {
        Ok(true) => {},
        Ok(false) => lemma_rule_done_keeps(
            v,
            Some(template_missing_error(v.rules[v.k].0, v.rules[v.k].2, v.locale)),
        ),
        Err(e) => lemma_rule_done_keeps(v, Some(template_error(e))),
    }
    match done {
        Ok(_) => {
            let w = IngestView { task_ids: v.task_ids.push(v.pending_task), ..v };
            lemma_rule_done_keeps(w, None);
            assert(v.task_ids.is_prefix_of(w.task_ids)) by {
                assert(w.task_ids.subrange(0, v.task_ids.len() as int) =~= v.task_ids);
            }
        },
        Err(e) => lemma_rule_done_keeps(v, Some(enqueue_error(v.recipients[v.r].0, v.rules[v.k].1, e))),
    }
}

/// The ingestion of one event.
pub struct IngestRun {
    event_name: String,
    idempotency_key: Option<String>,
    default_locale: String,
    rules: Vec<RuleInfo>,
    recipients: Vec<RecipientInput>,
    stage: IngestStage,
    r: usize,
    k: usize,
    recipient_id: u128,
    locale: String,
    stored_contacts: Vec<(String, String)>,
    contact: String,
    pending_task: u128,
    task_ids: Vec<u128>,
    errors: Vec<String>,
}

impl View for IngestRun {
    type V = IngestView;

    closed spec fn view(&self) -> IngestView {
        IngestView {
            event_name: self.event_name@,
            idempotency_key: opt_string(self.idempotency_key),
            default_locale: self.default_locale@,
            rules: rules_view(self.rules@),
            recipients: recipients_view(self.recipients@),
            stage: self.stage,
            r: self.r as int,
            k: self.k as int,
            recipient_id: self.recipient_id,
            locale: self.locale@,
            stored_contacts: pairs_view(self.stored_contacts@),
            contact: self.contact@,
            pending_task: self.pending_task,
            task_ids: self.task_ids@,
            errors: strings(self.errors@),
        }
    }
}

/// Whether the positions of a view are in range.
pub open spec fn ingest_bounds(v: IngestView) -> bool {
    &&& 0 <= v.r <= v.recipients.len()
    &&& 0 <= v.k <= v.rules.len()
}

/// Whether a view is consistent: positions in range for the stage.
pub open spec fn ingest_wf(v: IngestView) -> bool {
    &&& ingest_bounds(v)
    &&& (v.stage != IngestStage::Ready && v.stage != IngestStage::Done && v.stage
        != IngestStage::Aborted) ==> v.r < v.recipients.len()
    &&& (v.stage == IngestStage::AwaitIdempotency || v.stage == IngestStage::AwaitTemplate
        || v.stage == IngestStage::AwaitPipeline || v.stage == IngestStage::AwaitEnqueue) ==> v.k
        < v.rules.len()
}

pub(crate) fn copy_ids(v: &Vec<u128>) -> (c: Vec<u128>)
    ensures
        c@ == v@,
{
    let mut c: Vec<u128> = Vec::new();
    let mut i: usize = 0;
    while i < v.len()
        invariant
            i <= v@.len(),
            c@ == v@.subrange(0, i as int),
        decreases v@.len() - i,
    {
        c.push(v[i]);
        i = i + 1;
    }
    assert(v@.subrange(0, v@.len() as int) =~= v@);
    c
}

pub(crate) fn copy_strings(v: &Vec<String>) -> (c: Vec<String>)
    ensures
        strings(c@) == strings(v@),
{
    let mut c: Vec<String> = Vec::new();
    let mut i: usize = 0;
    while i < v.len()
        invariant
            i <= v@.len(),
            c@.len() == i,
            strings(c@) == strings(v@.subrange(0, i as int)),
        decreases v@.len() - i,
    {
        let ghost c0 = c@;
        c.push(v[i].clone());
        proof {
            let next = v@.subrange(0, i + 1);
            assert forall|j: int| 0 <= j < strings(c@).len() implies strings(c@)[j]
                == strings(next)[j] by {
                if j < i {
                    assert(c@[j] == c0[j]);
                    assert(strings(c0)[j] == strings(v@.subrange(0, i as int))[j]);
                }
            }
            assert(strings(c@) =~= strings(next));
        }
        i = i + 1;
    }
    assert(v@.subrange(0, v@.len() as int) =~= v@);
    c
}

pub(crate) fn push_str_error(errors: &mut Vec<String>, e: String)
    ensures
        strings(final(errors)@) == strings(old(errors)@).push(e@),
{
    errors.push(e);
    assert(strings(errors@) =~= strings(old(errors)@).push(e@));
}

pub(crate) fn message3(a: &str, b: &str, c: &str) -> (m: String)
    ensures
        m@ == a@ + b@ + c@,
{
    let mut m = String::from_str(a);
    m.append(b);
    m.append(c);
    m
}

impl IngestRun {
    /// A new ingestion of `event_name` to `recipients` over the event's `rules`.
    pub fn new(
        event_name: String,
        idempotency_key: Option<String>,
        default_locale: String,
        rules: Vec<RuleInfo>,
        recipients: Vec<RecipientInput>,
    ) -> (run: Self)
        ensures
            run@.event_name == event_name@,
            run@.idempotency_key == opt_string(idempotency_key),
            run@.default_locale == default_locale@,
            run@.rules == rules_view(rules@),
            run@.recipients == recipients_view(recipients@),
            run@.stage == IngestStage::Ready,
            run@.r == 0,
            run@.k == 0,
            run@.task_ids == Seq::<u128>::empty(),
            run@.errors == Seq::<Seq<char>>::empty(),
            ingest_wf(run@),
    {
        let run = IngestRun {
            event_name,
            idempotency_key,
            default_locale,
            rules,
            recipients,
            stage: IngestStage::Ready,
            r: 0,
            k: 0,
            recipient_id: 0,
            locale: String::new(),
            stored_contacts: Vec::new(),
            contact: String::new(),
            pending_task: 0,
            task_ids: Vec::new(),
            errors: Vec::new(),
        };
        assert(run@.errors =~= Seq::<Seq<char>>::empty());
        run
    }

    fn next_recipient(&mut self) -> (a: IngestAction)
        requires
            ingest_bounds(old(self)@),
        ensures
            (final(self)@, a@) == next_recipient(old(self)@),
            ingest_wf(final(self)@),
    {
        if self.r < self.recipients.len() {
            self.stage = IngestStage::AwaitUpsert;
            IngestAction::UpsertRecipient { external_id: self.recipients[self.r].id.clone() }
        } else {
            self.stage = IngestStage::Done;
            IngestAction::Finish {
                accepted: self.task_ids.len(),
                task_ids: copy_ids(&self.task_ids),
                errors: copy_strings(&self.errors),
            }
        }
    }

    fn scan_rules(&mut self) -> (a: IngestAction)
        requires
            ingest_bounds(old(self)@),
            old(self)@.r < old(self)@.recipients.len(),
        ensures
            (final(self)@, a@) == scan_rules(old(self)@),
            ingest_wf(final(self)@),
    {
        let ghost v0 = self@;
        let ghost e0 = self@.errors;
        while self.k < self.rules.len()
            invariant
                ingest_bounds(self@),
                self@ == (IngestView { k: self@.k, errors: self@.errors, ..v0 }),
                v0.k <= self@.k,
                v0.r < v0.recipients.len(),
                e0 == v0.errors,
                v0 == old(self)@,
                self.r as int == v0.r,
                self.recipients@.len() == v0.recipients.len(),
                self.rules@.len() == v0.rules.len(),
                next_contact_rule(v0, self@.k) == next_contact_rule(v0, v0.k),
                self@.errors + skip_errors(v0, self@.k) == e0 + skip_errors(v0, v0.k),
            decreases self.rules@.len() - self.k,
        {
            let r = self.r;
            let k = self.k;
            let found = choose_contact(
                &self.recipients[r].contacts,
                &self.stored_contacts,
                self.rules[k].channel.as_str(),
            );
            match found {
                Some(c) => {
                    proof {
                        assert(has_contact(v0, k as int));
                        assert(next_contact_rule(v0, k as int) == k as int);
                        assert(skip_errors(v0, k as int) =~= Seq::<Seq<char>>::empty());
                        assert(self@.errors =~= e0 + skip_errors(v0, v0.k));
                        assert(c@ == select_contact(
                            v0.recipients[v0.r].1,
                            v0.stored_contacts,
                            v0.rules[k as int].1,
                        ).unwrap());
                    }
                    self.contact = c;
                    match &self.idempotency_key {
                        Some(ck) => {
                            let key = make_idempotency_key(
                                self.event_name.as_str(),
                                self.recipient_id,
                                self.rules[k].channel.as_str(),
                                Some(ck.as_str()),
                            );
                            self.stage = IngestStage::AwaitIdempotency;
                            proof {
                                let w = IngestView {
                                    k: k as int,
                                    errors: e0 + skip_errors(v0, v0.k),
                                    contact: c@,
                                    ..v0
                                };
                                assert(self@ == (IngestView { stage: IngestStage::AwaitIdempotency, ..w }));
                                assert(v0.idempotency_key == Some(ck@));
                                assert(key@ == idempotency_key(
                                    v0.event_name,
                                    v0.recipient_id,
                                    v0.rules[k as int].1,
                                    Some(ck@),
                                ));
                            }
                            return IngestAction::CheckIdempotency { key };
                        },
                        None => {
                            self.stage = IngestStage::AwaitTemplate;
                            proof {
                                let w = IngestView {
                                    k: k as int,
                                    errors: e0 + skip_errors(v0, v0.k),
                                    contact: c@,
                                    ..v0
                                };
                                assert(self@ == (IngestView { stage: IngestStage::AwaitTemplate, ..w }));
                                assert(v0.idempotency_key == None::<Seq<char>>);
                            }
                            return IngestAction::ResolveTemplate {
                                template_id: self.rules[k].template_id,
                                locale: self.locale.clone(),
                                default_locale: self.default_locale.clone(),
                            };
                        },
                    }
                },
                None => {
                    proof {
                        assert(!has_contact(v0, k as int));
                    }
                    let m = message3(
                        "No contact for recipient ",
                        self.recipients[r].id.as_str(),
                        " on channel ",
                    );
                    let m = message3(m.as_str(), self.rules[k].channel.as_str(), "");
                    proof {
                        reveal_strlit("");
                        assert(m@ =~= no_contact_error(v0.recipients[v0.r].0, v0.rules[k as int].1));
                        assert(seq![m@] + skip_errors(v0, k + 1) =~= skip_errors(v0, k as int));
                    }
                    push_str_error(&mut self.errors, m);
                    self.k = k + 1;
                    proof {
                        assert(self@.errors + skip_errors(v0, self@.k) =~= e0 + skip_errors(v0, v0.k));
                    }
                },
            }
        }
        proof {
            assert(skip_errors(v0, self@.k) =~= Seq::<Seq<char>>::empty());
            assert(self@.errors =~= e0 + skip_errors(v0, v0.k));
        }
        let n = self.recipients.len();
        assert(self.r < n);
        self.r = self.r + 1;
        self.next_recipient()
    }

    fn rule_done(&mut self, error: Option<String>) -> (a: IngestAction)
        requires
            ingest_bounds(old(self)@),
            old(self)@.r < old(self)@.recipients.len(),
            old(self)@.k < old(self)@.rules.len(),
        ensures
            (final(self)@, a@) == rule_done(old(self)@, opt_string(error)),
            ingest_wf(final(self)@),
    {
        match error {
            Some(e) => push_str_error(&mut self.errors, e),
            None => {},
        }
        let n = self.rules.len();
        assert(self.k < n);
        self.k = self.k + 1;
        self.scan_rules()
    }

    /// Hands back the outcome of `UpsertRecipient`.
    pub fn recipient_upserted(&mut self, res: Result<u128, String>) -> (a: IngestAction)
        requires
            old(self)@.stage == IngestStage::AwaitUpsert,
            ingest_wf(old(self)@),
        ensures
            (final(self)@, a@) == recipient_upserted(old(self)@, err_view(res)),
            ingest_wf(final(self)@),
    {
        match res {
            Ok(id) => {
                self.recipient_id = id;
                self.stage = IngestStage::AwaitContactsStored;
                let contacts = clone_pairs(&self.recipients[self.r].contacts);
                IngestAction::StoreContacts { recipient_id: id, contacts }
            },
            Err(e) => {
                let m = message3(
                    "Failed to resolve recipient ",
                    self.recipients[self.r].id.as_str(),
                    ": ",
                );
                let m = message3(m.as_str(), e.as_str(), "");
                proof {
                    reveal_strlit("");
                }
                push_str_error(&mut self.errors, m);
                let n = self.recipients.len();
                assert(self.r < n);
                self.r = self.r + 1;
                self.next_recipient()
            },
        }
    }

    /// Reports that `StoreContacts` is done.
    pub fn contacts_stored(&mut self) -> (a: IngestAction)
        requires
            old(self)@.stage == IngestStage::AwaitContactsStored,
            ingest_wf(old(self)@),
        ensures
            (final(self)@, a@) == contacts_stored(old(self)@),
            ingest_wf(final(self)@),
    {
        self.stage = IngestStage::AwaitFind;
        IngestAction::FindRecipient { external_id: self.recipients[self.r].id.clone() }
    }

    /// Hands back the outcome of `FindRecipient`: the recipient's locale when
    /// it was found.
    pub fn recipient_found(&mut self, res: Result<Option<String>, String>) -> (a: IngestAction)
        requires
            old(self)@.stage == IngestStage::AwaitFind,
            ingest_wf(old(self)@),
        ensures
            (final(self)@, a@) == recipient_found(old(self)@, found_view(res)),
            ingest_wf(final(self)@),
    {
        match res {
            Ok(found) => {
                match found {
                    Some(l) => {
                        self.locale = l;
                    },
                    None => {
                        self.locale = self.default_locale.clone();
                    },
                }
                self.stage = IngestStage::AwaitContacts;
                IngestAction::LoadContacts { recipient_id: self.recipient_id }
            },
            Err(e) => {
                self.stage = IngestStage::Aborted;
                IngestAction::Abort { status: 500, message: e }
            },
        }
    }

    /// Hands back the outcome of `LoadContacts`.
    pub fn contacts_loaded(&mut self, res: Result<Vec<(String, String)>, String>) -> (a: IngestAction)
        requires
            old(self)@.stage == IngestStage::AwaitContacts,
            ingest_wf(old(self)@),
        ensures
            (final(self)@, a@) == contacts_loaded(old(self)@, loaded_view(res)),
            ingest_wf(final(self)@),
    {
        match res {
            Ok(cs) => {
                self.stored_contacts = cs;
                self.k = 0;
                self.scan_rules()
            },
            Err(e) => {
                self.stage = IngestStage::Aborted;
                IngestAction::Abort { status: 500, message: e }
            },
        }
    }

    /// Hands back the outcome of `CheckIdempotency`: `Ok(true)` for a
    /// duplicate delivery.
    pub fn idempotency_checked(&mut self, res: Result<bool, String>) -> (a: IngestAction)
        requires
            old(self)@.stage == IngestStage::AwaitIdempotency,
            ingest_wf(old(self)@),
        ensures
            (final(self)@, a@) == idempotency_checked(old(self)@, err_view(res)),
            ingest_wf(final(self)@),
    {
        let duplicate = match res {
            Ok(d) => d,
            Err(_) => false,
        };
        if duplicate {
            self.rule_done(None)
        } else {
            self.stage = IngestStage::AwaitTemplate;
            IngestAction::ResolveTemplate {
                template_id: self.rules[self.k].template_id,
                locale: self.locale.clone(),
                default_locale: self.default_locale.clone(),
            }
        }
    }

    /// Hands back the outcome of `ResolveTemplate`: the template body when
    /// content was found.
    pub fn template_resolved(&mut self, res: Result<Option<serde_json::Value>, String>) -> (a: IngestAction)
        requires
            old(self)@.stage == IngestStage::AwaitTemplate,
            ingest_wf(old(self)@),
        ensures
            (final(self)@, a@) == template_resolved(old(self)@, template_view(res)),
            ingest_wf(final(self)@),
            res matches Ok(Some(body)) ==> (a matches IngestAction::RunPipeline { template_body, .. }
                && template_body == body),
    {
        match res {
            Ok(Some(body)) => {
                self.stage = IngestStage::AwaitPipeline;
                let channel = self.rules[self.k].channel.clone();
                let idempotency_key = match &self.idempotency_key {
                    Some(key) => Some(key.clone()),
                    None => None,
                };
                IngestAction::RunPipeline {
                    recipient_id: self.recipient_id,
                    locale: self.locale.clone(),
                    channel,
                    contact_value: self.contact.clone(),
                    template_body: body,
                    idempotency_key,
                    max_attempts: 5,
                }
            },
            Ok(None) => {
                let rule = &self.rules[self.k];
                let mut m = String::from_str("Template not found for rule ");
                m.append(uuid_to_string(rule.id).as_str());
                m.append(" (template_id: ");
                m.append(uuid_to_string(rule.template_id).as_str());
                m.append(", locale: ");
                m.append(self.locale.as_str());
                m.append(")");
                self.rule_done(Some(m))
            },
            Err(e) => {
                let m = message3("Template resolution error: ", e.as_str(), "");
                proof {
                    reveal_strlit("");
                }
                self.rule_done(Some(m))
            },
        }
    }

    /// Hands back the outcome of `RunPipeline`: the new task's id.
    pub fn pipeline_ran(&mut self, res: Result<u128, String>) -> (a: IngestAction)
        requires
            old(self)@.stage == IngestStage::AwaitPipeline,
            ingest_wf(old(self)@),
        ensures
            (final(self)@, a@) == pipeline_ran(old(self)@, err_view(res)),
            ingest_wf(final(self)@),
    {
        match res {
            Ok(id) => {
                self.pending_task = id;
                self.stage = IngestStage::AwaitEnqueue;
                IngestAction::Enqueue
            },
            Err(e) => {
                let m = message3(
                    "Pipeline error for recipient ",
                    self.recipients[self.r].id.as_str(),
                    " channel ",
                );
                let m = message3(m.as_str(), self.rules[self.k].channel.as_str(), ": ");
                let m = message3(m.as_str(), e.as_str(), "");
                proof {
                    reveal_strlit("");
                }
                self.rule_done(Some(m))
            },
        }
    }

    /// Hands back the outcome of `Enqueue`.
    pub fn enqueued(&mut self, res: Result<(), String>) -> (a: IngestAction)
        requires
            old(self)@.stage == IngestStage::AwaitEnqueue,
            ingest_wf(old(self)@),
        ensures
            (final(self)@, a@) == enqueued(old(self)@, err_view(res)),
            ingest_wf(final(self)@),
    {
        match res {
            Ok(_) => {
                self.task_ids.push(self.pending_task);
                self.rule_done(None)
            },
            Err(e) => {
                let m = message3(
                    "Failed to enqueue task for recipient ",
                    self.recipients[self.r].id.as_str(),
                    " channel ",
                );
                let m = message3(m.as_str(), self.rules[self.k].channel.as_str(), ": ");
                let m = message3(m.as_str(), e.as_str(), "");
                proof {
                    reveal_strlit("");
                }
                self.rule_done(Some(m))
            },
        }
    }

    /// Starts the ingestion.
    pub fn start(&mut self) -> (a: IngestAction)
        requires
            old(self)@.stage == IngestStage::Ready,
            ingest_wf(old(self)@),
        ensures
            (final(self)@, a@) == start(old(self)@),
            ingest_wf(final(self)@),
    {
        if self.rules.len() == 0 {
            let mut m = String::from_str("No pipeline rules configured for event: ");
            m.append(self.event_name.as_str());
            push_str_error(&mut self.errors, m);
            self.stage = IngestStage::Done;
            IngestAction::Finish {
                accepted: self.task_ids.len(),
                task_ids: copy_ids(&self.task_ids),
                errors: copy_strings(&self.errors),
            }
        } else {
            self.next_recipient()
        }
    }
}

} // verus!
