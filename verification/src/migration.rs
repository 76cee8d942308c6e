//! The schema migration plan: which migrations exist, in which order, which
//! tables each creates (and in which order), which tables each table's
//! foreign keys reference, which columns each adds to an existing table, and
//! which migrations are still to be applied.
//! The tables themselves are defined in `schema`; rendering and running their
//! DDL is the application's job.
use vstd::prelude::*;

use crate::ingest::strings;
use crate::text::str_eq;

verus! {

/// The migrations in the order they are applied.
pub open spec fn plan_names() -> Seq<Seq<char>> {
    seq![
        "m20260303_000001_create_projects"@,
        "m20260303_000002_create_events"@,
        "m20260303_000003_create_templates"@,
        "m20260303_000004_create_recipients"@,
        "m20260303_000005_create_delivery_log"@,
        "m20260303_000006_create_api_keys"@,
        "m20260303_000007_create_idempotency"@,
        "m20260304_000008_create_delivery_task"@,
        "m20260304_000009_create_credentials"@,
        "m20260308_000010_create_pipeline_middleware"@,
        "m20260308_000011_add_rule_id_to_delivery_task"@,
        "m20260308_000012_create_tracking_event"@,
    ]
}

/// The tables migration `m` creates, in creation order, each with the tables
/// its foreign keys reference.
pub open spec fn plan_tables(m: int) -> Seq<(Seq<char>, Seq<Seq<char>>)> {
    if m == 0 {
        seq![("project"@, seq![])]
    } else if m == 1 {
        seq![("event"@, seq!["project"@]), ("pipeline_rule"@, seq!["event"@])]
    } else if m == 2 {
        seq![
            ("template"@, seq!["project"@]),
            ("template_version"@, seq!["template"@]),
            ("template_content"@, seq!["template_version"@]),
        ]
    } else if m == 3 {
        seq![
            ("recipient"@, seq!["project"@]),
            ("recipient_contact"@, seq!["recipient"@]),
            ("recipient_preference"@, seq!["recipient"@]),
            ("unsubscribe"@, seq!["recipient"@, "event"@]),
        ]
    } else if m == 4 {
        seq![("delivery_log"@, seq!["project"@, "recipient"@])]
    } else if m == 5 {
        seq![("api_key"@, seq!["project"@])]
    } else if m == 6 {
        seq![("idempotency_record"@, seq![])]
    } else if m == 7 {
        seq![("delivery_task"@, seq!["project"@, "recipient"@])]
    } else if m == 8 {
        seq![("credential"@, seq!["project"@])]
    } else if m == 9 {
        seq![("pipeline_middleware"@, seq!["pipeline_rule"@])]
    } else if m == 11 {
        seq![("tracking_event"@, seq![])]
    } else {
        seq![]
    }
}

/// The columns migration `m` adds to tables that exist before it, each as
/// (table, column).
pub open spec fn plan_columns(m: int) -> Seq<(Seq<char>, Seq<char>)> {
    if m == 10 {
        seq![("delivery_task"@, "rule_id"@)]
    } else {
        seq![]
    }
}

/// The names of the tables migrations `0..m` create, in creation order.
pub open spec fn created_before(m: int) -> Seq<Seq<char>>
    decreases m,
{
    if m <= 0 {
        seq![]
    } else {
        created_before(m - 1) + plan_tables(m - 1).map_values(|t: (Seq<char>, Seq<Seq<char>>)| t.0)
    }
}

/// Whether every foreign key of migration `m`'s tables references a table
/// created before it: by an earlier migration, or earlier in the same one.
pub open spec fn references_resolve(m: int) -> bool {
    forall|i: int, r: int|
        0 <= i < plan_tables(m).len() && 0 <= r < plan_tables(m)[i].1.len() ==> (created_before(m)
            + plan_tables(m).take(i).map_values(|t: (Seq<char>, Seq<Seq<char>>)| t.0)).contains(
            #[trigger] plan_tables(m)[i].1[r],
        )
}

/// Whether every column migration `m` adds goes to a table created by an
/// earlier migration.
pub open spec fn columns_resolve(m: int) -> bool {
    forall|k: int| 0 <= k < plan_columns(m).len() ==> created_before(m).contains(#[trigger] plan_columns(m)[k].0)
}

/// The view of a list of static strings.
pub open spec fn static_strs(v: Seq<&'static str>) -> Seq<Seq<char>> {
    v.map_values(|t: &'static str| t@)
}

/// The view of a list of pairs of static strings.
pub open spec fn static_pairs(v: Seq<(&'static str, &'static str)>) -> Seq<(Seq<char>, Seq<char>)> {
    v.map_values(|t: (&'static str, &'static str)| (t.0@, t.1@))
}

/// A migration of the plan: its name, the tables it creates and the columns
/// it adds to existing tables, as (table, column).
pub struct MigrationPlan {
    pub name: &'static str,
    pub tables: Vec<&'static str>,
    pub added_columns: Vec<(&'static str, &'static str)>,
}

/// The names of the tables migration `m` creates, in creation order.
pub open spec fn table_names(m: int) -> Seq<Seq<char>> {
    plan_tables(m).map_values(|t: (Seq<char>, Seq<Seq<char>>)| t.0)
}

fn plan_of(name: &'static str, tables: Vec<&'static str>) -> (p: MigrationPlan)
    ensures
        p.name == name,
        p.tables == tables,
        p.added_columns@.len() == 0,
{
    MigrationPlan { name, tables, added_columns: Vec::new() }
}

/// The migration plan, in the order the migrations are applied.
pub fn migrations() -> (plan: Vec<MigrationPlan>)
    ensures
        plan@.len() == plan_names().len(),
        forall|m: int| 0 <= m < plan@.len() ==> #[trigger] plan@[m].name@ == plan_names()[m],
        forall|m: int| 0 <= m < plan@.len() ==> static_strs(#[trigger] plan@[m].tables@) == table_names(m),
        forall|m: int| 0 <= m < plan@.len() ==> static_pairs(#[trigger] plan@[m].added_columns@) == plan_columns(m),
{
    proof {
        reveal_strlit("m20260303_000001_create_projects");
        reveal_strlit("m20260303_000002_create_events");
        reveal_strlit("m20260303_000003_create_templates");
        reveal_strlit("m20260303_000004_create_recipients");
        reveal_strlit("m20260303_000005_create_delivery_log");
        reveal_strlit("m20260303_000006_create_api_keys");
        reveal_strlit("m20260303_000007_create_idempotency");
        reveal_strlit("m20260304_000008_create_delivery_task");
        reveal_strlit("m20260304_000009_create_credentials");
        reveal_strlit("m20260308_000010_create_pipeline_middleware");
        reveal_strlit("m20260308_000011_add_rule_id_to_delivery_task");
        reveal_strlit("m20260308_000012_create_tracking_event");
    }
    let mut plan: Vec<MigrationPlan> = Vec::new();
    plan.push(plan_of("m20260303_000001_create_projects", vec!["project"]));
    plan.push(plan_of("m20260303_000002_create_events", vec!["event", "pipeline_rule"]));
    plan.push(
        plan_of(
            "m20260303_000003_create_templates",
            vec!["template", "template_version", "template_content"],
        ),
    );
    plan.push(
        plan_of(
            "m20260303_000004_create_recipients",
            vec!["recipient", "recipient_contact", "recipient_preference", "unsubscribe"],
        ),
    );
    plan.push(plan_of("m20260303_000005_create_delivery_log", vec!["delivery_log"]));
    plan.push(plan_of("m20260303_000006_create_api_keys", vec!["api_key"]));
    plan.push(plan_of("m20260303_000007_create_idempotency", vec!["idempotency_record"]));
    plan.push(plan_of("m20260304_000008_create_delivery_task", vec!["delivery_task"]));
    plan.push(plan_of("m20260304_000009_create_credentials", vec!["credential"]));
    plan.push(plan_of("m20260308_000010_create_pipeline_middleware", vec!["pipeline_middleware"]));
    let mut add_rule_id = plan_of("m20260308_000011_add_rule_id_to_delivery_task", Vec::new());
    add_rule_id.added_columns.push(("delivery_task", "rule_id"));
    plan.push(add_rule_id);
    plan.push(plan_of("m20260308_000012_create_tracking_event", vec!["tracking_event"]));
    proof {
        assert forall|m: int| 0 <= m < plan@.len() implies static_strs(#[trigger] plan@[m].tables@)
            == table_names(m) by {
            assert(static_strs(plan@[m].tables@) =~= table_names(m));
        }
        assert forall|m: int| 0 <= m < plan@.len() implies static_pairs(
            #[trigger] plan@[m].added_columns@,
        ) == plan_columns(m) by {
            assert(static_pairs(plan@[m].added_columns@) =~= plan_columns(m));
        }
    }
    plan
}

/// The tables migration `m` drops when it is reverted: those it created, in
/// reverse order, so that referencing tables go first.
pub fn dropped_tables(plan: &MigrationPlan) -> (tables: Vec<&'static str>)
    ensures
        tables@ == plan.tables@.reverse(),
{
    let mut tables: Vec<&'static str> = Vec::new();
    let n = plan.tables.len();
    let mut i: usize = n;
    while i > 0
        invariant
            i <= n,
            n == plan.tables@.len(),
            tables@ == plan.tables@.subrange(i as int, n as int).reverse(),
        decreases i,
    {
        i = i - 1;
        tables.push(plan.tables[i]);
        proof {
            assert(plan.tables@.subrange(i as int, n as int).reverse() =~= plan.tables@.subrange(
                i + 1,
                n as int,
            ).reverse().push(plan.tables@[i as int]));
        }
    }
    assert(plan.tables@.subrange(0, n as int) =~= plan.tables@);
    tables
}

/// The migrations of `names` that `applied` does not record, in plan order.
pub open spec fn pending(names: Seq<Seq<char>>, applied: Seq<Seq<char>>) -> Seq<int>
    decreases names.len(),
{
    if names.len() == 0 {
        seq![]
    } else {
        let rest = pending(names.drop_last(), applied);
        if applied.contains(names.last()) {
            rest
        } else {
            rest.push(names.len() - 1)
        }
    }
}

fn recorded(applied: &Vec<String>, name: &str) -> (b: bool)
    ensures
        b == strings(applied@).contains(name@),
{
    let mut i: usize = 0;
    while i < applied.len()
        invariant
            i <= applied@.len(),
            forall|j: int| 0 <= j < i ==> strings(applied@)[j] != name@,
        decreases applied@.len() - i,
    {
        if str_eq(applied[i].as_str(), name) {
            assert(strings(applied@)[i as int] == name@);
            return true;
        }
        i = i + 1;
    }
    false
}

/// The positions in `plan` of the migrations not yet recorded as applied, in
/// the order they are to be applied.
pub fn pending_migrations(plan: &Vec<MigrationPlan>, applied: &Vec<String>) -> (todo: Vec<usize>)
    ensures
        todo@.map_values(|i: usize| i as int) == pending(
            plan@.map_values(|p: MigrationPlan| p.name@),
            strings(applied@),
        ),
{
    let ghost names = plan@.map_values(|p: MigrationPlan| p.name@);
    let mut todo: Vec<usize> = Vec::new();
    let mut i: usize = 0;
    while i < plan.len()
        invariant
            i <= plan@.len(),
            names == plan@.map_values(|p: MigrationPlan| p.name@),
            todo@.map_values(|k: usize| k as int) == pending(names.take(i as int), strings(applied@)),
        decreases plan@.len() - i,
    {
        proof {
            assert(names.take(i + 1).drop_last() =~= names.take(i as int));
            assert(names.take(i + 1).last() == plan@[i as int].name@);
        }
        let ghost before = todo@;
        if !recorded(applied, plan[i].name) {
            todo.push(i);
            proof {
                assert(todo@.map_values(|k: usize| k as int) =~= before.map_values(|k: usize| k as int).push(
                    i as int,
                ));
            }
        }
        i = i + 1;
    }
    assert(names.take(plan@.len() as int) =~= names);
    todo
}

// ── Laws ────────────────────────────────────────────────────────────────

/// Every foreign key of every table of the plan references a table created
/// before it, so applying the migrations in order never references a missing
/// table.
pub proof fn lemma_plan_references_resolve()
    ensures
        forall|m: int| 0 <= m < plan_names().len() ==> #[trigger] references_resolve(m),
{
    assert forall|m: int| 0 <= m < plan_names().len() implies #[trigger] references_resolve(m) by {
        reveal_with_fuel(created_before, 13);
        assert(created_before(1) =~= seq!["project"@]);
        assert(created_before(2) =~= seq!["project"@, "event"@, "pipeline_rule"@]);
        assert(created_before(3) =~= seq![
            "project"@,
            "event"@,
            "pipeline_rule"@,
            "template"@,
            "template_version"@,
            "template_content"@,
        ]);
        assert(created_before(4) =~= seq![
            "project"@,
            "event"@,
            "pipeline_rule"@,
            "template"@,
            "template_version"@,
            "template_content"@,
            "recipient"@,
            "recipient_contact"@,
            "recipient_preference"@,
            "unsubscribe"@,
        ]);
        assert(created_before(4).contains("recipient"@)) by {
            assert(created_before(4)[6] == "recipient"@);
        }
        assert(created_before(4).contains("project"@)) by {
            assert(created_before(4)[0] == "project"@);
        }
        assert forall|i: int, r: int|
            0 <= i < plan_tables(m).len() && 0 <= r < plan_tables(m)[i].1.len() implies (
            created_before(m) + plan_tables(m).take(i).map_values(
                |t: (Seq<char>, Seq<Seq<char>>)| t.0,
            )).contains(#[trigger] plan_tables(m)[i].1[r]) by {
            let all = created_before(m) + plan_tables(m).take(i).map_values(
                |t: (Seq<char>, Seq<Seq<char>>)| t.0,
            );
            if m >= 4 {
                assert(all.take(created_before(4).len() as int) == created_before(4)) by {
                    lemma_created_before_grows(4, m);
                    assert(all.take(created_before(m).len() as int) =~= created_before(m));
                    assert(all.take(created_before(4).len() as int) =~= created_before(m).take(
                        created_before(4).len() as int,
                    ));
                }
                let x = plan_tables(m)[i].1[r];
                if x == "recipient"@ {
                    assert(all[6] == "recipient"@);
                } else if x == "pipeline_rule"@ {
                    assert(all[2] == "pipeline_rule"@);
                } else {
                    assert(all[0] == "project"@);
                }
            } else if m == 3 {
                if i == 0 {
                    assert(all[0] == "project"@);
                } else if r == 0 {
                    assert(all[6] == "recipient"@);
                } else {
                    assert(all[1] == "event"@);
                }
            } else if m == 2 {
                if i == 0 {
                    assert(all[0] == "project"@);
                } else {
                    assert(all[i + 2] == plan_tables(m)[i].1[r]);
                }
            } else if m == 1 {
                assert(all[i] == plan_tables(m)[i].1[r]);
            }
        }
    }
}

/// Every column the plan adds goes to a table an earlier migration created.
pub proof fn lemma_plan_columns_resolve()
    ensures
        forall|m: int| 0 <= m < plan_names().len() ==> #[trigger] columns_resolve(m),
{
    assert forall|m: int| 0 <= m < plan_names().len() implies #[trigger] columns_resolve(m) by {
        if m == 10 {
            let before = created_before(7);
            assert(created_before(8) == before + seq!["delivery_task"@]) by {
                assert(plan_tables(7).map_values(|t: (Seq<char>, Seq<Seq<char>>)| t.0) =~= seq![
                    "delivery_task"@,
                ]);
            }
            lemma_created_before_grows(8, 10);
            let k = before.len() as int;
            assert(created_before(8)[k] == "delivery_task"@);
            assert(created_before(10).take(created_before(8).len() as int)[k] == "delivery_task"@);
            assert(created_before(10)[k] == "delivery_task"@);
            assert(plan_columns(m)[0].0 == "delivery_task"@);
        }
    }
}

proof fn lemma_created_before_grows(a: int, b: int)
    requires
        0 <= a <= b,
    ensures
        created_before(a).len() <= created_before(b).len(),
        created_before(b).take(created_before(a).len() as int) == created_before(a),
    decreases b - a,
{
    if a < b {
        lemma_created_before_grows(a, b - 1);
        let prev = created_before(b - 1);
        assert(created_before(b).take(prev.len() as int) =~= prev);
        assert(created_before(b).take(created_before(a).len() as int) =~= prev.take(
            created_before(a).len() as int,
        ));
    } else {
        assert(created_before(a).take(created_before(a).len() as int) =~= created_before(a));
    }
}

/// Applying what is pending leaves nothing pending: once every migration of
/// `names` is recorded as applied, running the plan again applies nothing.
pub proof fn lemma_pending_after_apply(names: Seq<Seq<char>>, applied: Seq<Seq<char>>)
    requires
        forall|i: int| 0 <= i < names.len() ==> applied.contains(#[trigger] names[i]),
    ensures
        pending(names, applied) == Seq::<int>::empty(),
    decreases names.len(),
{
    if names.len() > 0 {
        let init = names.drop_last();
        assert forall|i: int| 0 <= i < init.len() implies applied.contains(#[trigger] init[i]) by {
            assert(init[i] == names[i]);
        }
        lemma_pending_after_apply(init, applied);
        assert(applied.contains(names[names.len() - 1]));
    }
}

/// A migration is pending exactly when it is not recorded as applied, and the
/// pending ones come in plan order.
pub proof fn lemma_pending_exactly(names: Seq<Seq<char>>, applied: Seq<Seq<char>>)
    ensures
        forall|i: int|
            0 <= i < names.len() ==> (pending(names, applied).contains(i) <==> !applied.contains(
                #[trigger] names[i],
            )),
        forall|a: int, b: int|
            0 <= a < b < pending(names, applied).len() ==> pending(names, applied)[a] < pending(
                names,
                applied,
            )[b],
        forall|a: int|
            0 <= a < pending(names, applied).len() ==> 0 <= #[trigger] pending(names, applied)[a]
                < names.len(),
    decreases names.len(),
{
    if names.len() > 0 {
        let init = names.drop_last();
        lemma_pending_exactly(init, applied);
        let rest = pending(init, applied);
        assert forall|i: int|
            0 <= i < names.len() implies (pending(names, applied).contains(i) <==> !applied.contains(
            #[trigger] names[i],
        )) by {
            if i < names.len() - 1 {
                assert(names[i] == init[i]);
                if !applied.contains(names.last()) {
                    if pending(names, applied).contains(i) {
                        let k = choose|k: int|
                            0 <= k < pending(names, applied).len() && pending(names, applied)[k] == i;
                        if k < rest.len() {
                            assert(rest[k] == i);
                        }
                    }
                    if rest.contains(i) {
                        let k = choose|k: int| 0 <= k < rest.len() && rest[k] == i;
                        assert(pending(names, applied)[k] == i);
                    }
                }
            } else {
                if !applied.contains(names.last()) {
                    assert(pending(names, applied)[rest.len() as int] == i);
                } else {
                    if rest.contains(i) {
                        let k = choose|k: int| 0 <= k < rest.len() && rest[k] == i;
                    }
                }
            }
        }
    }
}

} // verus!
