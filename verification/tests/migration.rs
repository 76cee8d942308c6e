use notifico::migration::{dropped_tables, migrations, pending_migrations};

#[test]
fn plan_lists_migrations_in_order() {
    let plan = migrations();
    let names: Vec<&str> = plan.iter().map(|m| m.name).collect();
    assert_eq!(
        names,
        vec![
            "m20260303_000001_create_projects",
            "m20260303_000002_create_events",
            "m20260303_000003_create_templates",
            "m20260303_000004_create_recipients",
            "m20260303_000005_create_delivery_log",
            "m20260303_000006_create_api_keys",
            "m20260303_000007_create_idempotency",
            "m20260304_000008_create_delivery_task",
            "m20260304_000009_create_credentials",
            "m20260308_000010_create_pipeline_middleware",
            "m20260308_000011_add_rule_id_to_delivery_task",
            "m20260308_000012_create_tracking_event",
        ]
    );
    assert_eq!(
        plan[3].tables,
        vec!["recipient", "recipient_contact", "recipient_preference", "unsubscribe"]
    );
    assert_eq!(plan[8].tables, vec!["credential"]);
    assert_eq!(plan[9].tables, vec!["pipeline_middleware"]);
    assert!(plan[10].tables.is_empty());
    assert_eq!(plan[10].added_columns, vec![("delivery_task", "rule_id")]);
    assert_eq!(plan[11].tables, vec!["tracking_event"]);
    assert!(plan.iter().enumerate().all(|(i, m)| i == 10 || m.added_columns.is_empty()));
}

#[test]
fn down_drops_in_reverse() {
    let plan = migrations();
    assert_eq!(
        dropped_tables(&plan[3]),
        vec!["unsubscribe", "recipient_preference", "recipient_contact", "recipient"]
    );
    assert_eq!(dropped_tables(&plan[0]), vec!["project"]);
}

#[test]
fn pending_skips_applied_and_second_run_is_empty() {
    let plan = migrations();
    assert_eq!(pending_migrations(&plan, &vec![]), (0..12).collect::<Vec<usize>>());
    let applied = vec![
        "m20260303_000001_create_projects".to_string(),
        "m20260303_000003_create_templates".to_string(),
    ];
    assert_eq!(pending_migrations(&plan, &applied), vec![1, 3, 4, 5, 6, 7, 8, 9, 10, 11]);
    let all: Vec<String> = plan.iter().map(|m| m.name.to_string()).collect();
    assert!(pending_migrations(&plan, &all).is_empty());
}
