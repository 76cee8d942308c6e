//! Broadcasts: the fan-out of one event to all recipients of a project (or to
//! those named by a filter), as a state machine in the manner of ingestion.
//! Recipients without a contact on a channel are skipped silently, and
//! opted-out recipients are skipped unless the event is transactional.
use vstd::prelude::*;

use crate::admin::RecipientAdminRow;
use crate::contacts::{find_value, lookup};
use crate::ids::{uuid_hyphenated, uuid_to_string};
use crate::ingest::{
    copy_strings, err_view, loaded_view, message3, opt_strings, push_str_error, rules_view, strings,
    template_view, RuleInfo,
};
use crate::json::pairs_view;
use crate::preference::respects_preferences;
use crate::text::str_eq;

verus! {

/// The plain view of recipient rows: id, external id, locale (empty when none
/// was set).
pub open spec fn rows_view(v: Seq<RecipientAdminRow>) -> Seq<(u128, Seq<char>, Seq<char>)> {
    v.map_values(|r: RecipientAdminRow| (r.id, r.external_id@, r.locale@))
}

/// The rows a broadcast goes to: all of them without a filter, else those
/// whose external id the filter names, in their order.
pub open spec fn targeted(rows: Seq<(u128, Seq<char>, Seq<char>)>, filter: Option<Seq<Seq<char>>>) -> Seq<
    (u128, Seq<char>, Seq<char>),
> {
    match filter {
        None => rows,
        Some(ids) => rows.filter(|r: (u128, Seq<char>, Seq<char>)| ids.contains(r.1)),
    }
}

fn names(ids: &Vec<String>, id: &str) -> (b: bool)
    ensures
        b == strings(ids@).contains(id@),
{
    let mut i: usize = 0;
    while i < ids.len()
        invariant
            i <= ids@.len(),
            forall|j: int| 0 <= j < i ==> strings(ids@)[j] != id@,
        decreases ids@.len() - i,
    {
        if str_eq(ids[i].as_str(), id) {
            assert(strings(ids@)[i as int] == id@);
            return true;
        }
        i = i + 1;
    }
    false
}

/// The recipient rows a broadcast goes to: all of them without a filter,
/// else those whose external id the filter names, in their order.
pub open spec fn targeted_rows(rows: Seq<RecipientAdminRow>, filter: Option<Seq<Seq<char>>>) -> Seq<
    RecipientAdminRow,
> {
    match filter {
        None => rows,
        Some(ids) => rows.filter(|r: RecipientAdminRow| ids.contains(r.external_id@)),
    }
}

/// Keeps the rows that a broadcast with `filter` goes to, each row whole.
pub fn target_recipients(rows: Vec<RecipientAdminRow>, filter: &Option<Vec<String>>) -> (out: Vec<RecipientAdminRow>)
    ensures
        out@ == targeted_rows(rows@, opt_strings(*filter)),
        rows_view(out@) == targeted(rows_view(rows@), opt_strings(*filter)),
{
    match filter {
        None => rows,
        Some(ids) => {
            let ghost orig = rows@;
            let ghost f = |r: (u128, Seq<char>, Seq<char>)| strings(ids@).contains(r.1);
            let ghost g = |r: RecipientAdminRow| strings(ids@).contains(r.external_id@);
            let ghost all = rows_view(orig);
            let n = rows.len();
            let mut rest = rows;
            let mut reversed: Vec<RecipientAdminRow> = Vec::new();
            let mut k: usize = 0;
            while k < n
                invariant
                    n == orig.len(),
                    k <= n,
                    rest@ == orig.subrange(0, n - k),
                    reversed@ == orig.subrange(n - k, n as int).reverse(),
                decreases n - k,
            {
                let r = rest.pop().unwrap();
                reversed.push(r);
                proof {
                    assert(orig.subrange(0, n - k) =~= orig.subrange(0, n - k - 1).push(r));
                    assert(orig.subrange(n - k - 1, n as int).reverse() =~= orig.subrange(
                        n - k,
                        n as int,
                    ).reverse().push(orig[n - k - 1]));
                }
                k = k + 1;
            }
            let mut kept: Vec<RecipientAdminRow> = Vec::new();
            let mut i: usize = 0;
            while i < n
                invariant
                    n == orig.len(),
                    i <= n,
                    all == rows_view(orig),
                    f == (|r: (u128, Seq<char>, Seq<char>)| strings(ids@).contains(r.1)),
                    g == (|r: RecipientAdminRow| strings(ids@).contains(r.external_id@)),
                    reversed@ == orig.subrange(i as int, n as int).reverse(),
                    kept@ == orig.subrange(0, i as int).filter(g),
                    rows_view(kept@) == all.subrange(0, i as int).filter(f),
                decreases n - i,
            {
                let ghost before = kept@;
                proof {
                    reveal(Seq::filter);
                    assert(all.subrange(0, i + 1).drop_last() =~= all.subrange(0, i as int));
                    assert(all.subrange(0, i + 1).last() == all[i as int]);
                    assert(orig.subrange(0, i + 1).drop_last() =~= orig.subrange(0, i as int));
                    assert(orig.subrange(0, i + 1).last() == orig[i as int]);
                    assert(orig.subrange(i as int, n as int).reverse() =~= orig.subrange(
                        i + 1,
                        n as int,
                    ).reverse().push(orig[i as int]));
                }
                let row = reversed.pop().unwrap();
                assert(row == orig[i as int]);
                if names(ids, row.external_id.as_str()) {
                    kept.push(row);
                    proof {
                        assert(rows_view(kept@) =~= rows_view(before).push(all[i as int]));
                    }
                }
                i = i + 1;
            }
            proof {
                assert(all.subrange(0, n as int) =~= all);
                assert(orig.subrange(0, n as int) =~= orig);
            }
            kept
        },
    }
}

/// Where a broadcast stands.
#[derive(Debug, Clone, Copy, PartialEq, Eq, Structural)]
pub enum BroadcastStage {
    Ready,
    AwaitRecipients,
    AwaitContacts,
    AwaitPreference,
    AwaitTemplate,
    AwaitPipeline,
    AwaitEnqueue,
    Done,
    Aborted,
}

/// The plain view of a broadcast.
pub struct BroadcastView {
    pub event_name: Seq<char>,
    pub category: Seq<char>,
    pub default_locale: Seq<char>,
    pub rules: Seq<(u128, Seq<char>, u128)>,
    pub filter: Option<Seq<Seq<char>>>,
    pub recipients: Seq<(u128, Seq<char>, Seq<char>)>,
    pub stage: BroadcastStage,
    pub r: int,
    pub k: int,
    pub locale: Seq<char>,
    pub stored_contacts: Seq<(Seq<char>, Seq<char>)>,
    pub contact: Seq<char>,
    pub pending_task: u128,
    pub task_ids: Seq<u128>,
    pub errors: Seq<Seq<char>>,
}

/// What the application is asked to do next.
pub enum BroadcastAction {
    /// List all recipients of the project.
    ListRecipients,
    /// Load a recipient's stored contacts as (channel, value) pairs.
    LoadContacts { recipient_id: u128 },
    /// Report whether the recipient opted out of the category on the channel.
    CheckPreference { recipient_id: u128, category: String, channel: String },
    /// Resolve the template in the locale, falling back to the default locale.
    ResolveTemplate { template_id: u128, locale: String, default_locale: String },
    /// Render the template into a delivery task; report the task id.
    RunPipeline {
        recipient_id: u128,
        locale: String,
        channel: String,
        contact_value: String,
        template_body: serde_json::Value,
        max_attempts: u32,
    },
    /// Enqueue the task the pipeline produced.
    Enqueue,
    /// Stop and answer with this status and message.
    Abort { status: u16, message: String },
    /// Answer with the number of recipients, of tasks, and the errors.
    Finish { recipient_count: usize, task_count: usize, errors: Vec<String> },
}

/// The plain view of an action (the template body is left out).
pub enum BroadcastStep {
    ListRecipients,
    LoadContacts(u128),
    CheckPreference(u128, Seq<char>, Seq<char>),
    ResolveTemplate(u128, Seq<char>, Seq<char>),
    RunPipeline(u128, Seq<char>, Seq<char>, Seq<char>, u32),
    Enqueue,
    Abort(u16, Seq<char>),
    Finish(nat, nat, Seq<Seq<char>>),
}

impl View for BroadcastAction {
    type V = BroadcastStep;

    open spec fn view(&self) -> BroadcastStep {
        match self {
            BroadcastAction::ListRecipients => BroadcastStep::ListRecipients,
            BroadcastAction::LoadContacts { recipient_id } => BroadcastStep::LoadContacts(*recipient_id),
            BroadcastAction::CheckPreference { recipient_id, category, channel } =>
                BroadcastStep::CheckPreference(*recipient_id, category@, channel@),
            BroadcastAction::ResolveTemplate { template_id, locale, default_locale } =>
                BroadcastStep::ResolveTemplate(*template_id, locale@, default_locale@),
            BroadcastAction::RunPipeline {
                recipient_id,
                locale,
                channel,
                contact_value,
                template_body,
                max_attempts,
            } => BroadcastStep::RunPipeline(
                *recipient_id,
                locale@,
                channel@,
                contact_value@,
                *max_attempts,
            ),
            BroadcastAction::Enqueue => BroadcastStep::Enqueue,
            BroadcastAction::Abort { status, message } => BroadcastStep::Abort(*status, message@),
            BroadcastAction::Finish { recipient_count, task_count, errors } => BroadcastStep::Finish(
                *recipient_count as nat,
                *task_count as nat,
                strings(errors@),
            ),
        }
    }
}

// ── Messages ────────────────────────────────────────────────────────────

/// The error answered when the event has no rules.
pub open spec fn no_rules_error(event_name: Seq<char>) -> Seq<char> {
    "No pipeline rules for event: "@ + event_name
}

/// A recipient whose contacts could not be loaded.
pub open spec fn contacts_error(external_id: Seq<char>, e: Seq<char>) -> Seq<char> {
    "Failed to get contacts for "@ + external_id + ": "@ + e
}

/// A rule whose template has no content in the locale or the default locale.
pub open spec fn template_missing(rule_id: u128, locale: Seq<char>) -> Seq<char> {
    "Template not found for rule "@ + uuid_hyphenated(rule_id) + " locale "@ + locale
}

/// A template lookup that failed.
pub open spec fn template_failed(e: Seq<char>) -> Seq<char> {
    "Template error: "@ + e
}

/// A rendering that failed.
pub open spec fn pipeline_failed(external_id: Seq<char>, e: Seq<char>) -> Seq<char> {
    "Pipeline error for "@ + external_id + ": "@ + e
}

/// An enqueue that failed.
pub open spec fn enqueue_failed(e: Seq<char>) -> Seq<char> {
    "Enqueue error: "@ + e
}

// ── Transitions ─────────────────────────────────────────────────────────

/// The locale of a recipient: its own, or the default when it has none.
pub open spec fn locale_of(v: BroadcastView, r: int) -> Seq<char> {
    if v.recipients[r].2.len() == 0 {
        v.default_locale
    } else {
        v.recipients[r].2
    }
}

/// The first rule from `i` on that the current recipient has a stored
/// contact for (the number of rules when there is none).
pub open spec fn next_rule(v: BroadcastView, i: int) -> int
    decreases v.rules.len() - i,
{
    if i >= v.rules.len() || i < 0 {
        v.rules.len() as int
    } else if lookup(v.stored_contacts, v.rules[i].1) is Some {
        i
    } else {
        next_rule(v, i + 1)
    }
}

/// Moving on to recipient `r`: load its contacts, or answer when all are done.
pub open spec fn next_recipient(v: BroadcastView) -> (BroadcastView, BroadcastStep) {
    if v.r < v.recipients.len() {
        (
            BroadcastView { stage: BroadcastStage::AwaitContacts, ..v },
            BroadcastStep::LoadContacts(v.recipients[v.r].0),
        )
    } else {
        (
            BroadcastView { stage: BroadcastStage::Done, ..v },
            BroadcastStep::Finish(v.recipients.len(), v.task_ids.len(), v.errors),
        )
    }
}

/// The step that resolves the template of rule `k`.
pub open spec fn resolve(v: BroadcastView) -> (BroadcastView, BroadcastStep) {
    (
        BroadcastView { stage: BroadcastStage::AwaitTemplate, ..v },
        BroadcastStep::ResolveTemplate(v.rules[v.k].2, v.locale, v.default_locale),
    )
}

/// Moving on to rule `k`: rules without a stored contact are skipped; for the
/// first with one, the preference is checked (unless the event is
/// transactional) or the template resolved; after the last rule, the next
/// recipient follows.
pub open spec fn scan_rules(v: BroadcastView) -> (BroadcastView, BroadcastStep) {
    let j = next_rule(v, v.k);
    if j < v.rules.len() {
        let w = BroadcastView { k: j, contact: lookup(v.stored_contacts, v.rules[j].1).unwrap(), ..v };
        if v.category != "transactional"@ {
            (
                BroadcastView { stage: BroadcastStage::AwaitPreference, ..w },
                BroadcastStep::CheckPreference(v.recipients[v.r].0, v.category, v.rules[j].1),
            )
        } else {
            resolve(w)
        }
    } else {
        next_recipient(BroadcastView { k: j, r: v.r + 1, ..v })
    }
}

/// Done with rule `k`, with or without an error.
pub open spec fn rule_done(v: BroadcastView, error: Option<Seq<char>>) -> (BroadcastView, BroadcastStep) {
    let errors = match error {
        Some(e) => v.errors.push(e),
        None => v.errors,
    };
    scan_rules(BroadcastView { k: v.k + 1, errors: errors, ..v })
}

/// The start: an event without rules is answered at once with an error;
/// otherwise the recipients are listed.
pub open spec fn start(v: BroadcastView) -> (BroadcastView, BroadcastStep) {
    if v.rules.len() == 0 {
        let errors = v.errors.push(no_rules_error(v.event_name));
        (
            BroadcastView { stage: BroadcastStage::Done, errors: errors, ..v },
            BroadcastStep::Finish(0, 0, errors),
        )
    } else {
        (BroadcastView { stage: BroadcastStage::AwaitRecipients, ..v }, BroadcastStep::ListRecipients)
    }
}

/// The recipients of the project came back: those the filter names are
/// targeted; a failed listing ends the broadcast with status 500.
pub open spec fn recipients_listed(
    v: BroadcastView,
    res: Result<Seq<(u128, Seq<char>, Seq<char>)>, Seq<char>>,
) -> (BroadcastView, BroadcastStep) {
    match res {
        Ok(rows) => next_recipient(BroadcastView { recipients: targeted(rows, v.filter), r: 0, ..v }),
        Err(e) => (BroadcastView { stage: BroadcastStage::Aborted, ..v }, BroadcastStep::Abort(500, e)),
    }
}

/// The current recipient's contacts came back: the rules are scanned in the
/// recipient's locale; a failed load skips the recipient with an error.
pub open spec fn contacts_loaded(v: BroadcastView, res: Result<Seq<(Seq<char>, Seq<char>)>, Seq<char>>) -> (
    BroadcastView,
    BroadcastStep,
) {
    match res {
        Ok(cs) => scan_rules(
            BroadcastView { k: 0, stored_contacts: cs, locale: locale_of(v, v.r), ..v },
        ),
        Err(e) => next_recipient(
            BroadcastView {
                r: v.r + 1,
                errors: v.errors.push(contacts_error(v.recipients[v.r].1, e)),
                ..v
            },
        ),
    }
}

/// The preference check came back: an opted-out recipient is skipped
/// silently; otherwise (also when the check failed) the template is resolved.
pub open spec fn preference_checked(v: BroadcastView, res: Result<bool, Seq<char>>) -> (BroadcastView, BroadcastStep) {
    if res == Ok::<bool, Seq<char>>(true) {
        rule_done(v, None)
    } else {
        resolve(v)
    }
}

/// The template lookup came back (`Ok(true)` when content was found).
pub open spec fn template_resolved(v: BroadcastView, res: Result<bool, Seq<char>>) -> (BroadcastView, BroadcastStep) {
    match res {
        Ok(true) => (
            BroadcastView { stage: BroadcastStage::AwaitPipeline, ..v },
            BroadcastStep::RunPipeline(v.recipients[v.r].0, v.locale, v.rules[v.k].1, v.contact, 5),
        ),
        Ok(false) => rule_done(v, Some(template_missing(v.rules[v.k].0, v.locale))),
        Err(e) => rule_done(v, Some(template_failed(e))),
    }
}

/// The pipeline came back with a task id, or failed.
pub open spec fn pipeline_ran(v: BroadcastView, res: Result<u128, Seq<char>>) -> (BroadcastView, BroadcastStep) {
    match res {
        Ok(id) => (
            BroadcastView { stage: BroadcastStage::AwaitEnqueue, pending_task: id, ..v },
            BroadcastStep::Enqueue,
        ),
        Err(e) => rule_done(v, Some(pipeline_failed(v.recipients[v.r].1, e))),
    }
}

/// The enqueue came back: the task is counted, or the rule has an error.
pub open spec fn enqueued(v: BroadcastView, res: Result<(), Seq<char>>) -> (BroadcastView, BroadcastStep) {
    match res {
        Ok(_) => rule_done(BroadcastView { task_ids: v.task_ids.push(v.pending_task), ..v }, None),
        Err(e) => rule_done(v, Some(enqueue_failed(e))),
    }
}

// ── Laws ────────────────────────────────────────────────────────────────

/// Whether the current recipient has a stored contact on rule `i`'s channel.
pub open spec fn has_stored_contact(v: BroadcastView, i: int) -> bool {
    lookup(v.stored_contacts, v.rules[i].1) is Some
}

/// Scanning from rule `i`: the first rule the recipient has a stored contact
/// for, the rules before it having none.
proof fn lemma_next_rule(v: BroadcastView, i: int)
    requires
        0 <= i <= v.rules.len(),
    ensures
        i <= next_rule(v, i) <= v.rules.len(),
        next_rule(v, i) < v.rules.len() ==> has_stored_contact(v, next_rule(v, i)),
        forall|m: int| i <= m < next_rule(v, i) ==> !has_stored_contact(v, m),
    decreases v.rules.len() - i,
{
    if i < v.rules.len() && !has_stored_contact(v, i) {
        lemma_next_rule(v, i + 1);
    }
}

/// Whether `out` goes on from rule `v.k` of the current recipient with the
/// errors `errors` and task ids `task_ids` collected: when a later rule has a
/// stored contact, the same recipient continues with the first such rule
/// (its preference checked, or its template resolved for a transactional
/// event); otherwise the next recipient's contacts are loaded, or the
/// broadcast answers.
pub open spec fn continues_with_recipient(
    v: BroadcastView,
    errors: Seq<Seq<char>>,
    task_ids: Seq<u128>,
    out: (BroadcastView, BroadcastStep),
) -> bool {
    let w = out.0;
    &&& w.task_ids == task_ids
    &&& w.errors == errors
    &&& (exists|j: int| v.k < j < v.rules.len() && #[trigger] has_stored_contact(v, j)) ==> {
        &&& w.r == v.r
        &&& v.k < w.k < v.rules.len()
        &&& has_stored_contact(v, w.k)
        &&& (forall|m: int| v.k < m < w.k ==> !#[trigger] has_stored_contact(v, m))
        &&& w.contact == lookup(v.stored_contacts, v.rules[w.k].1).unwrap()
        &&& (v.category != "transactional"@ ==> out.1 == BroadcastStep::CheckPreference(
            v.recipients[v.r].0,
            v.category,
            v.rules[w.k].1,
        ))
        &&& (v.category == "transactional"@ ==> out.1 == BroadcastStep::ResolveTemplate(
            v.rules[w.k].2,
            v.locale,
            v.default_locale,
        ))
    }
    &&& !(exists|j: int| v.k < j < v.rules.len() && #[trigger] has_stored_contact(v, j)) ==> {
        &&& w.r == v.r + 1
        &&& (v.r + 1 < v.recipients.len() ==> out.1 == BroadcastStep::LoadContacts(
            v.recipients[v.r + 1].0,
        ))
        &&& (v.r + 1 == v.recipients.len() ==> out.1 == BroadcastStep::Finish(
            v.recipients.len(),
            task_ids.len(),
            errors,
        ))
    }
}

proof fn lemma_rule_done_continues(v: BroadcastView, error: Option<Seq<char>>)
    requires
        0 <= v.r < v.recipients.len(),
        0 <= v.k < v.rules.len(),
    ensures
        continues_with_recipient(
            v,
            match error {
                Some(e) => v.errors.push(e),
                None => v.errors,
            },
            v.task_ids,
            rule_done(v, error),
        ),
{
    let errors = match error {
        Some(e) => v.errors.push(e),
        None => v.errors,
    };
    let u = BroadcastView { k: v.k + 1, errors: errors, ..v };
    lemma_next_rule(u, v.k + 1);
    let j = next_rule(u, v.k + 1);
    assert forall|m: int| v.k < m < v.rules.len() implies has_stored_contact(u, m)
        == has_stored_contact(v, m) by {}
    if exists|jj: int| v.k < jj < v.rules.len() && #[trigger] has_stored_contact(v, jj) {
        let jj = choose|jj: int| v.k < jj < v.rules.len() && #[trigger] has_stored_contact(v, jj);
        assert(j <= jj);
    } else {
        if j < v.rules.len() {
            assert(has_stored_contact(v, j));
        }
    }
}

/// Every outcome of a rule other than a go-ahead keeps to the recipient: an
/// opt-out, a missing template, a failed template lookup, a failed
/// rendering, a failed or a successful enqueue each end rule `k` only (with
/// its error, or its task counted) and go on with the same recipient's next
/// rule that it has a stored contact for; the recipient is left only after
/// its last such rule.
pub proof fn lemma_rule_outcomes_keep_the_recipient(v: BroadcastView, e: Seq<char>)
    requires
        0 <= v.r < v.recipients.len(),
        0 <= v.k < v.rules.len(),
    ensures
        continues_with_recipient(v, v.errors, v.task_ids, preference_checked(v, Ok(true))),
        continues_with_recipient(
            v,
            v.errors.push(template_missing(v.rules[v.k].0, v.locale)),
            v.task_ids,
            template_resolved(v, Ok(false)),
        ),
        continues_with_recipient(v, v.errors.push(template_failed(e)), v.task_ids, template_resolved(v, Err(e))),
        continues_with_recipient(
            v,
            v.errors.push(pipeline_failed(v.recipients[v.r].1, e)),
            v.task_ids,
            pipeline_ran(v, Err(e)),
        ),
        continues_with_recipient(v, v.errors.push(enqueue_failed(e)), v.task_ids, enqueued(v, Err(e))),
        continues_with_recipient(v, v.errors, v.task_ids.push(v.pending_task), enqueued(v, Ok(()))),
{
    lemma_rule_done_continues(v, None);
    lemma_rule_done_continues(v, Some(template_missing(v.rules[v.k].0, v.locale)));
    lemma_rule_done_continues(v, Some(template_failed(e)));
    lemma_rule_done_continues(v, Some(pipeline_failed(v.recipients[v.r].1, e)));
    lemma_rule_done_continues(v, Some(enqueue_failed(e)));
    let t = BroadcastView { task_ids: v.task_ids.push(v.pending_task), ..v };
    lemma_rule_done_continues(t, None);
    assert forall|m: int| v.k < m < v.rules.len() implies has_stored_contact(t, m)
        == has_stored_contact(v, m) by {}
}

/// An opt-out skips only its own channel. When the preference check of rule
/// `k` of recipient `r` says the recipient opted out, nothing is counted, no
/// error is added, and the same recipient goes on with its next rule that it
/// has a stored contact for: that channel's preference is checked next (its
/// template resolved, for a transactional event). Only when no later rule has
/// a stored contact does the broadcast move on to the next recipient (or
/// answer). Any other answer resolves the template of rule `k` for the same
/// recipient.
pub proof fn lemma_opt_out_skips_only_its_channel(v: BroadcastView, res: Result<bool, Seq<char>>)
    requires
        0 <= v.r < v.recipients.len(),
        0 <= v.k < v.rules.len(),
    ensures
        res != Ok::<bool, Seq<char>>(true) ==> {
            &&& preference_checked(v, res).0.r == v.r
            &&& preference_checked(v, res).0.k == v.k
            &&& preference_checked(v, res).0.task_ids == v.task_ids
            &&& preference_checked(v, res).0.errors == v.errors
            &&& preference_checked(v, res).1 == BroadcastStep::ResolveTemplate(
                v.rules[v.k].2,
                v.locale,
                v.default_locale,
            )
        },
        res == Ok::<bool, Seq<char>>(true) ==> {
            &&& preference_checked(v, res).0.task_ids == v.task_ids
            &&& preference_checked(v, res).0.errors == v.errors
        },
        res == Ok::<bool, Seq<char>>(true) && (exists|j: int|
            v.k < j < v.rules.len() && #[trigger] has_stored_contact(v, j)) ==> {
            let w = preference_checked(v, res).0;
            &&& w.r == v.r
            &&& v.k < w.k < v.rules.len()
            &&& has_stored_contact(v, w.k)
            &&& (forall|m: int| v.k < m < w.k ==> !#[trigger] has_stored_contact(v, m))
            &&& w.contact == lookup(v.stored_contacts, v.rules[w.k].1).unwrap()
            &&& (v.category != "transactional"@ ==> preference_checked(v, res).1
                == BroadcastStep::CheckPreference(v.recipients[v.r].0, v.category, v.rules[w.k].1))
            &&& (v.category == "transactional"@ ==> preference_checked(v, res).1
                == BroadcastStep::ResolveTemplate(v.rules[w.k].2, v.locale, v.default_locale))
        },
        res == Ok::<bool, Seq<char>>(true) && !(exists|j: int|
            v.k < j < v.rules.len() && #[trigger] has_stored_contact(v, j)) ==> {
            &&& preference_checked(v, res).0.r == v.r + 1
            &&& (v.r + 1 < v.recipients.len() ==> preference_checked(v, res).1
                == BroadcastStep::LoadContacts(v.recipients[v.r + 1].0))
            &&& (v.r + 1 == v.recipients.len() ==> preference_checked(v, res).1 == BroadcastStep::Finish(
                v.recipients.len(),
                v.task_ids.len(),
                v.errors,
            ))
        },
{
    if res == Ok::<bool, Seq<char>>(true) {
        let u = BroadcastView { k: v.k + 1, errors: v.errors, ..v };
        lemma_next_rule(u, v.k + 1);
        let j = next_rule(u, v.k + 1);
        assert forall|m: int| v.k < m < v.rules.len() implies has_stored_contact(u, m)
            == has_stored_contact(v, m) by {}
        if exists|jj: int| v.k < jj < v.rules.len() && #[trigger] has_stored_contact(v, jj) {
            let jj = choose|jj: int| v.k < jj < v.rules.len() && #[trigger] has_stored_contact(v, jj);
            assert(j <= jj);
        } else {
            if j < v.rules.len() {
                assert(has_stored_contact(v, j));
            }
        }
    }
}


/// A filtered broadcast goes exactly to the listed recipients that the filter
/// names: each targeted row is a listed row named by the filter, and each
/// listed row named by the filter is targeted.
pub proof fn lemma_targeted_exactly(rows: Seq<(u128, Seq<char>, Seq<char>)>, ids: Seq<Seq<char>>)
    ensures
        forall|i: int|
            0 <= i < targeted(rows, Some(ids)).len() ==> ids.contains(
                #[trigger] targeted(rows, Some(ids))[i].1,
            ) && rows.contains(targeted(rows, Some(ids))[i]),
        forall|i: int|
            0 <= i < rows.len() && ids.contains(rows[i].1) ==> #[trigger] targeted(
                rows,
                Some(ids),
            ).contains(rows[i]),
        targeted(rows, Some(ids)).len() <= rows.len(),
        targeted(rows, None) == rows,
{
    let f = |r: (u128, Seq<char>, Seq<char>)| ids.contains(r.1);
    broadcast use vstd::seq_lib::group_filter_ensures;

    assert forall|i: int| 0 <= i < targeted(rows, Some(ids)).len() implies ids.contains(
        #[trigger] targeted(rows, Some(ids))[i].1,
    ) && rows.contains(targeted(rows, Some(ids))[i]) by {
        assert(f(rows.filter(f)[i]));
        assert(rows.filter(f).contains(rows.filter(f)[i]));
        rows.lemma_filter_contains_rev(f, rows.filter(f)[i]);
    }
    assert forall|i: int| 0 <= i < rows.len() && ids.contains(rows[i].1) implies #[trigger] targeted(
        rows,
        Some(ids),
    ).contains(rows[i]) by {
        assert(f(rows[i]));
    }
}

/// Whether a step keeps what a broadcast has collected: the task ids and the
/// errors collected before come first, unchanged, after the step.
pub open spec fn keeps_collected(v: BroadcastView, out: (BroadcastView, BroadcastStep)) -> bool {
    &&& v.task_ids.is_prefix_of(out.0.task_ids)
    &&& v.errors.is_prefix_of(out.0.errors)
}

proof fn lemma_scan_keeps(v: BroadcastView)
    ensures
        keeps_collected(v, scan_rules(v)),
{
    assert(v.task_ids.is_prefix_of(v.task_ids));
    assert(v.errors.is_prefix_of(v.errors));
}

proof fn lemma_done_keeps(v: BroadcastView, error: Option<Seq<char>>)
    ensures
        keeps_collected(v, rule_done(v, error)),
{
    let errors = match error {
        Some(e) => v.errors.push(e),
        None => v.errors,
    };
    lemma_scan_keeps(BroadcastView { k: v.k + 1, errors: errors, ..v });
    assert(errors.subrange(0, v.errors.len() as int) =~= v.errors);
}

/// Every step of a broadcast keeps the task ids and errors collected so far.
pub proof fn lemma_broadcast_keeps_collected(
    v: BroadcastView,
    rows: Result<Seq<(u128, Seq<char>, Seq<char>)>, Seq<char>>,
    loaded: Result<Seq<(Seq<char>, Seq<char>)>, Seq<char>>,
    flag: Result<bool, Seq<char>>,
    id: Result<u128, Seq<char>>,
    done: Result<(), Seq<char>>,
)
    ensures
        keeps_collected(v, start(v)),
        keeps_collected(v, recipients_listed(v, rows)),
        keeps_collected(v, contacts_loaded(v, loaded)),
        keeps_collected(v, preference_checked(v, flag)),
        keeps_collected(v, template_resolved(v, flag)),
        keeps_collected(v, pipeline_ran(v, id)),
        keeps_collected(v, enqueued(v, done)),
{
    assert(v.task_ids.is_prefix_of(v.task_ids));
    assert(v.errors.is_prefix_of(v.errors));
    let started = v.errors.push(no_rules_error(v.event_name));
    assert(started.subrange(0, v.errors.len() as int) =~= v.errors);
    match loaded {
        Ok(cs) => lemma_scan_keeps(
            BroadcastView { k: 0, stored_contacts: cs, locale: locale_of(v, v.r), ..v },
        ),
        Err(e) => {
            let errors = v.errors.push(contacts_error(v.recipients[v.r].1, e));
            assert(errors.subrange(0, v.errors.len() as int) =~= v.errors);
        },
    }
    lemma_done_keeps(v, None);
    match flag {
        Ok(true) => {},
        Ok(false) => lemma_done_keeps(v, Some(template_missing(v.rules[v.k].0, v.locale))),
        Err(e) => lemma_done_keeps(v, Some(template_failed(e))),
    }
    match id {
        Ok(_) => {},
        Err(e) => lemma_done_keeps(v, Some(pipeline_failed(v.recipients[v.r].1, e))),
    }
    match done {
        Ok(_) => {
            let w = BroadcastView { task_ids: v.task_ids.push(v.pending_task), ..v };
            lemma_done_keeps(w, None);
            assert(w.task_ids.subrange(0, v.task_ids.len() as int) =~= v.task_ids);
        },
        Err(e) => lemma_done_keeps(v, Some(enqueue_failed(e))),
    }
}

/// The view of a recipient listing's outcome.
pub open spec fn rows_result(r: Result<Vec<RecipientAdminRow>, String>) -> Result<
    Seq<(u128, Seq<char>, Seq<char>)>,
    Seq<char>,
> {
    match r {
        Ok(rows) => Ok(rows_view(rows@)),
        Err(e) => Err(e@),
    }
}

/// Whether the positions of a view are in range.
pub open spec fn broadcast_bounds(v: BroadcastView) -> bool {
    &&& 0 <= v.r <= v.recipients.len()
    &&& 0 <= v.k <= v.rules.len()
}

/// Whether a view is consistent: positions in range for the stage.
pub open spec fn broadcast_wf(v: BroadcastView) -> bool {
    &&& broadcast_bounds(v)
    &&& (v.stage == BroadcastStage::AwaitContacts || v.stage == BroadcastStage::AwaitPreference
        || v.stage == BroadcastStage::AwaitTemplate || v.stage == BroadcastStage::AwaitPipeline
        || v.stage == BroadcastStage::AwaitEnqueue) ==> v.r < v.recipients.len()
    &&& (v.stage == BroadcastStage::AwaitPreference || v.stage == BroadcastStage::AwaitTemplate
        || v.stage == BroadcastStage::AwaitPipeline || v.stage == BroadcastStage::AwaitEnqueue) ==> v.k
        < v.rules.len()
}

/// A broadcast of one event.
pub struct BroadcastRun {
    event_name: String,
    category: String,
    default_locale: String,
    rules: Vec<RuleInfo>,
    filter: Option<Vec<String>>,
    recipients: Vec<RecipientAdminRow>,
    stage: BroadcastStage,
    r: usize,
    k: usize,
    locale: String,
    stored_contacts: Vec<(String, String)>,
    contact: String,
    pending_task: u128,
    task_ids: Vec<u128>,
    errors: Vec<String>,
}

impl View for BroadcastRun {
    type V = BroadcastView;

    closed spec fn view(&self) -> BroadcastView {
        BroadcastView {
            event_name: self.event_name@,
            category: self.category@,
            default_locale: self.default_locale@,
            rules: rules_view(self.rules@),
            filter: opt_strings(self.filter),
            recipients: rows_view(self.recipients@),
            stage: self.stage,
            r: self.r as int,
            k: self.k as int,
            locale: self.locale@,
            stored_contacts: pairs_view(self.stored_contacts@),
            contact: self.contact@,
            pending_task: self.pending_task,
            task_ids: self.task_ids@,
            errors: strings(self.errors@),
        }
    }
}

impl BroadcastRun {
    /// A new broadcast of `event_name` (of `category`) over the event's
    /// `rules`, to the recipients that `filter` names (all when it is `None`).
    pub fn new(
        event_name: String,
        category: String,
        default_locale: String,
        rules: Vec<RuleInfo>,
        filter: Option<Vec<String>>,
    ) -> (run: Self)
        ensures
            run@.event_name == event_name@,
            run@.category == category@,
            run@.default_locale == default_locale@,
            run@.rules == rules_view(rules@),
            run@.filter == opt_strings(filter),
            run@.recipients == Seq::<(u128, Seq<char>, Seq<char>)>::empty(),
            run@.stage == BroadcastStage::Ready,
            run@.r == 0,
            run@.k == 0,
            run@.task_ids == Seq::<u128>::empty(),
            run@.errors == Seq::<Seq<char>>::empty(),
            broadcast_wf(run@),
    {
        let run = BroadcastRun {
            event_name,
            category,
            default_locale,
            rules,
            filter,
            recipients: Vec::new(),
            stage: BroadcastStage::Ready,
            r: 0,
            k: 0,
            locale: String::new(),
            stored_contacts: Vec::new(),
            contact: String::new(),
            pending_task: 0,
            task_ids: Vec::new(),
            errors: Vec::new(),
        };
        assert(run@.errors =~= Seq::<Seq<char>>::empty());
        assert(run@.recipients =~= Seq::<(u128, Seq<char>, Seq<char>)>::empty());
        run
    }

    fn next_recipient(&mut self) -> (a: BroadcastAction)
        requires
            broadcast_bounds(old(self)@),
        ensures
            (final(self)@, a@) == next_recipient(old(self)@),
            broadcast_wf(final(self)@),
    {
        if self.r < self.recipients.len() {
            self.stage = BroadcastStage::AwaitContacts;
            BroadcastAction::LoadContacts { recipient_id: self.recipients[self.r].id }
        } else {
            self.stage = BroadcastStage::Done;
            BroadcastAction::Finish {
                recipient_count: self.recipients.len(),
                task_count: self.task_ids.len(),
                errors: copy_strings(&self.errors),
            }
        }
    }

    fn resolve(&mut self) -> (a: BroadcastAction)
        requires
            broadcast_bounds(old(self)@),
            old(self)@.r < old(self)@.recipients.len(),
            old(self)@.k < old(self)@.rules.len(),
        ensures
            (final(self)@, a@) == resolve(old(self)@),
            broadcast_wf(final(self)@),
    {
        self.stage = BroadcastStage::AwaitTemplate;
        BroadcastAction::ResolveTemplate {
            template_id: self.rules[self.k].template_id,
            locale: self.locale.clone(),
            default_locale: self.default_locale.clone(),
        }
    }

    fn scan_rules(&mut self) -> (a: BroadcastAction)
        requires
            broadcast_bounds(old(self)@),
            old(self)@.r < old(self)@.recipients.len(),
        ensures
            (final(self)@, a@) == scan_rules(old(self)@),
            broadcast_wf(final(self)@),
    {
        let ghost v0 = self@;
        while self.k < self.rules.len()
            invariant
                broadcast_bounds(self@),
                self@ == (BroadcastView { k: self@.k, ..v0 }),
                v0 == old(self)@,
                v0.k <= self@.k,
                v0.r < v0.recipients.len(),
                self.r as int == v0.r,
                self.rules@.len() == v0.rules.len(),
                next_rule(v0, self@.k) == next_rule(v0, v0.k),
            decreases self.rules@.len() - self.k,
        {
            let k = self.k;
            match find_value(&self.stored_contacts, self.rules[k].channel.as_str()) {
                Some(c) => {
                    proof {
                        assert(next_rule(v0, k as int) == k as int);
                    }
                    self.contact = c;
                    if respects_preferences(self.category.as_str()) {
                        self.stage = BroadcastStage::AwaitPreference;
                        return BroadcastAction::CheckPreference {
                            recipient_id: self.recipients[self.r].id,
                            category: self.category.clone(),
                            channel: self.rules[k].channel.clone(),
                        };
                    } else {
                        return self.resolve();
                    }
                },
                None => {
                    self.k = k + 1;
                },
            }
        }
        let n = self.recipients.len();
        assert(self.r < n);
        self.r = self.r + 1;
        self.next_recipient()
    }

    fn rule_done(&mut self, error: Option<String>) -> (a: BroadcastAction)
        requires
            broadcast_bounds(old(self)@),
            old(self)@.r < old(self)@.recipients.len(),
            old(self)@.k < old(self)@.rules.len(),
        ensures
            (final(self)@, a@) == rule_done(old(self)@, match error { Some(e) => Some(e@), None => None }),
            broadcast_wf(final(self)@),
    {
        match error {
            Some(e) => push_str_error(&mut self.errors, e),
            None => {},
        }
        let n = self.rules.len();
        assert(self.k < n);
        self.k = self.k + 1;
        self.scan_rules()
    }

    /// Starts the broadcast.
    pub fn start(&mut self) -> (a: BroadcastAction)
        requires
            old(self)@.stage == BroadcastStage::Ready,
            broadcast_wf(old(self)@),
        ensures
            (final(self)@, a@) == start(old(self)@),
            broadcast_wf(final(self)@),
    {
        if self.rules.len() == 0 {
            let mut m = String::from_str("No pipeline rules for event: ");
            m.append(self.event_name.as_str());
            push_str_error(&mut self.errors, m);
            self.stage = BroadcastStage::Done;
            BroadcastAction::Finish { recipient_count: 0, task_count: 0, errors: copy_strings(&self.errors) }
        } else {
            self.stage = BroadcastStage::AwaitRecipients;
            BroadcastAction::ListRecipients
        }
    }

    /// Hands back the outcome of `ListRecipients`.
    pub fn recipients_listed(&mut self, res: Result<Vec<RecipientAdminRow>, String>) -> (a: BroadcastAction)
        requires
            old(self)@.stage == BroadcastStage::AwaitRecipients,
            broadcast_wf(old(self)@),
        ensures
            (final(self)@, a@) == recipients_listed(old(self)@, rows_result(res)),
            broadcast_wf(final(self)@),
    {
        match res {
            Ok(rows) => {
                self.recipients = target_recipients(rows, &self.filter);
                self.r = 0;
                self.next_recipient()
            },
            Err(e) => {
                self.stage = BroadcastStage::Aborted;
                BroadcastAction::Abort { status: 500, message: e }
            },
        }
    }

    /// Hands back the outcome of `LoadContacts`.
    pub fn contacts_loaded(&mut self, res: Result<Vec<(String, String)>, String>) -> (a: BroadcastAction)
        requires
            old(self)@.stage == BroadcastStage::AwaitContacts,
            broadcast_wf(old(self)@),
        ensures
            (final(self)@, a@) == contacts_loaded(old(self)@, loaded_view(res)),
            broadcast_wf(final(self)@),
    {
        match res {
            Ok(cs) => {
                self.stored_contacts = cs;
                let r = self.r;
                proof {
                    reveal_strlit("");
                }
                let empty = str_eq(self.recipients[r].locale.as_str(), "");
                proof {
                    let l = self.recipients@[r as int].locale@;
                    if l.len() == 0 {
                        assert(l =~= ""@);
                    }
                    assert(empty <==> l.len() == 0);
                }
                self.locale = if empty {
                    self.default_locale.clone()
                } else {
                    self.recipients[r].locale.clone()
                };
                self.k = 0;
                self.scan_rules()
            },
            Err(e) => {
                let m = message3(
                    "Failed to get contacts for ",
                    self.recipients[self.r].external_id.as_str(),
                    ": ",
                );
                let m = message3(m.as_str(), e.as_str(), "");
                proof {
                    reveal_strlit("");
                }
                push_str_error(&mut self.errors, m);
                let n = self.recipients.len();
                assert(self.r < n);
                self.r = self.r + 1;
                self.next_recipient()
            },
        }
    }

    /// Hands back the outcome of `CheckPreference`: `Ok(true)` when the
    /// recipient opted out.
    pub fn preference_checked(&mut self, res: Result<bool, String>) -> (a: BroadcastAction)
        requires
            old(self)@.stage == BroadcastStage::AwaitPreference,
            broadcast_wf(old(self)@),
        ensures
            (final(self)@, a@) == preference_checked(old(self)@, err_view(res)),
            broadcast_wf(final(self)@),
    {
        let opted_out = match res {
            Ok(o) => o,
            Err(_) => false,
        };
        if opted_out {
            self.rule_done(None)
        } else {
            self.resolve()
        }
    }

    /// Hands back the outcome of `ResolveTemplate`: the template body when
    /// content was found.
    pub fn template_resolved(&mut self, res: Result<Option<serde_json::Value>, String>) -> (a: BroadcastAction)
        requires
            old(self)@.stage == BroadcastStage::AwaitTemplate,
            broadcast_wf(old(self)@),
        ensures
            (final(self)@, a@) == template_resolved(old(self)@, template_view(res)),
            broadcast_wf(final(self)@),
            res matches Ok(Some(body)) ==> (a matches BroadcastAction::RunPipeline { template_body, .. }
                && template_body == body),
    {
        match res {
            Ok(Some(body)) => {
                self.stage = BroadcastStage::AwaitPipeline;
                BroadcastAction::RunPipeline {
                    recipient_id: self.recipients[self.r].id,
                    locale: self.locale.clone(),
                    channel: self.rules[self.k].channel.clone(),
                    contact_value: self.contact.clone(),
                    template_body: body,
                    max_attempts: 5,
                }
            },
            Ok(None) => {
                let mut m = String::from_str("Template not found for rule ");
                m.append(uuid_to_string(self.rules[self.k].id).as_str());
                m.append(" locale ");
                m.append(self.locale.as_str());
                self.rule_done(Some(m))
            },
            Err(e) => {
                let m = message3("Template error: ", e.as_str(), "");
                proof {
                    reveal_strlit("");
                }
                self.rule_done(Some(m))
            },
        }
    }

    /// Hands back the outcome of `RunPipeline`: the new task's id.
    pub fn pipeline_ran(&mut self, res: Result<u128, String>) -> (a: BroadcastAction)
        requires
            old(self)@.stage == BroadcastStage::AwaitPipeline,
            broadcast_wf(old(self)@),
        ensures
            (final(self)@, a@) == pipeline_ran(old(self)@, err_view(res)),
            broadcast_wf(final(self)@),
    {
        match res {
            Ok(id) => {
                self.pending_task = id;
                self.stage = BroadcastStage::AwaitEnqueue;
                BroadcastAction::Enqueue
            },
            Err(e) => {
                let m = message3(
                    "Pipeline error for ",
                    self.recipients[self.r].external_id.as_str(),
                    ": ",
                );
                let m = message3(m.as_str(), e.as_str(), "");
                proof {
                    reveal_strlit("");
                }
                self.rule_done(Some(m))
            },
        }
    }

    /// Hands back the outcome of `Enqueue`.
    pub fn enqueued(&mut self, res: Result<(), String>) -> (a: BroadcastAction)
        requires
            old(self)@.stage == BroadcastStage::AwaitEnqueue,
            broadcast_wf(old(self)@),
        ensures
            (final(self)@, a@) == enqueued(old(self)@, err_view(res)),
            broadcast_wf(final(self)@),
    {
        match res {
            Ok(_) => {
                self.task_ids.push(self.pending_task);
                self.rule_done(None)
            },
            Err(e) => {
                let m = message3("Enqueue error: ", e.as_str(), "");
                proof {
                    reveal_strlit("");
                }
                self.rule_done(Some(m))
            },
        }
    }
}

} // verus!
