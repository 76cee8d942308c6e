use notifico::migration::migrations;
use notifico::schema::{table_def, ColumnDefault, ColumnKind};

#[test]
fn every_planned_table_is_defined() {
    for step in migrations() {
        for table in &step.tables {
            let def = table_def(table).expect("table of the plan has a definition");
            assert_eq!(def.name, *table);
            assert_eq!(def.columns[0].name, "id");
            assert!(def.columns[0].primary_key);
            for f in &def.foreign_keys {
                assert!(def.columns.iter().any(|c| c.name == f.column));
            }
            for ix in &def.indexes {
                for c in &ix.columns {
                    assert!(def.columns.iter().any(|col| col.name == *c));
                }
            }
        }
    }
    assert!(table_def("no_such_table").is_none());
}

#[test]
fn recipient_table_definition() {
    let def = table_def("recipient").unwrap();
    let names: Vec<&str> = def.columns.iter().map(|c| c.name).collect();
    assert_eq!(
        names,
        vec!["id", "project_id", "external_id", "locale", "timezone", "metadata", "created_at", "updated_at"]
    );
    let locale = &def.columns[3];
    assert_eq!(locale.kind, ColumnKind::Varchar(10));
    assert!(!locale.nullable);
    assert!(matches!(locale.default, ColumnDefault::Text("en")));
    assert!(matches!(def.columns[4].default, ColumnDefault::Text("UTC")));
    assert_eq!(def.foreign_keys.len(), 1);
    assert_eq!(def.foreign_keys[0].target, "project");
    assert!(def.foreign_keys[0].cascade);
    assert_eq!(def.indexes.len(), 1);
    assert_eq!(def.indexes[0].name, "idx_recipient_project_external");
    assert_eq!(def.indexes[0].columns, vec!["project_id", "external_id"]);
    assert!(def.indexes[0].unique);
}

#[test]
fn unsubscribe_event_key_nulls_on_delete() {
    let def = table_def("unsubscribe").unwrap();
    let targets: Vec<(&str, &str, bool)> =
        def.foreign_keys.iter().map(|f| (f.column, f.target, f.cascade)).collect();
    assert_eq!(targets, vec![("recipient_id", "recipient", true), ("event_id", "event", false)]);
    let token = def.columns.iter().find(|c| c.name == "token").unwrap();
    assert!(token.unique);
}

#[test]
fn credential_and_middleware_tables() {
    let cred = table_def("credential").unwrap();
    assert_eq!(cred.indexes.len(), 2);
    assert!(cred.indexes[0].unique && !cred.indexes[1].unique);
    assert_eq!(cred.indexes[1].columns, vec!["project_id", "channel"]);
    let mw = table_def("pipeline_middleware").unwrap();
    assert_eq!(mw.foreign_keys[0].target, "pipeline_rule");
    assert_eq!(mw.columns[0].kind, ColumnKind::Text);
    assert!(matches!(mw.columns[3].default, ColumnDefault::Text("{}")));
    let te = table_def("tracking_event").unwrap();
    assert!(te.foreign_keys.is_empty());
    assert_eq!(te.indexes[0].columns, vec!["delivery_log_id"]);
}

#[test]
fn added_rule_id_column() {
    let c = notifico::schema::added_column_def("delivery_task", "rule_id").unwrap();
    assert_eq!(c.name, "rule_id");
    assert_eq!(c.kind, ColumnKind::Uuid);
    assert!(c.nullable);
    assert!(notifico::schema::added_column_def("delivery_task", "other").is_none());
    for step in migrations() {
        for (table, name) in &step.added_columns {
            assert!(notifico::schema::added_column_def(table, name).is_some());
        }
    }
}
