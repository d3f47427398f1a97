use nl_cube::catalog::{ColumnDescriptor, SchemaSnapshot, TableEntry};
use nl_cube::db::MultiDbConnectionManager;
use nl_cube::schema_manager::{
    SchemaManager, SnapshotBuilder, SubjectOutcome, SubjectScan,
};

fn shop() -> SchemaSnapshot {
    let mut snapshot = SchemaSnapshot::new(42);
    let orders = TableEntry::new(
        "orders",
        vec![
            ColumnDescriptor::new("order_id", "INTEGER", false),
            ColumnDescriptor::new("total_amount", "DOUBLE", true),
        ],
    );
    let empty = TableEntry::new("Notes", vec![]);
    assert!(snapshot.insert_subject("sales", vec![orders, empty]).is_ok());
    assert!(snapshot.insert_subject("hr", vec![]).is_ok());
    snapshot
}

#[test]
fn tables_of_lists_tables_in_order() {
    let snapshot = shop();
    assert_eq!(snapshot.tables_of("sales"), vec!["orders".to_string(), "Notes".to_string()]);
    assert!(snapshot.tables_of("hr").is_empty());
    assert!(snapshot.tables_of("nobody").is_empty());
    assert!(SchemaSnapshot::new(0).tables_of("sales").is_empty());
}

#[test]
fn columns_of_keeps_ordinal_order() {
    let snapshot = shop();
    let columns = snapshot.columns_of("sales", "orders").unwrap();
    assert_eq!(columns.len(), 2);
    assert_eq!(columns[0].name, "order_id");
    assert_eq!(columns[0].declared_type, "INTEGER");
    assert!(!columns[0].nullable);
    assert_eq!(columns[1].name, "total_amount");
    assert_eq!(columns[1].declared_type, "DOUBLE");
    assert!(columns[1].nullable);
    assert_eq!(snapshot.columns_of("sales", "Notes").unwrap().len(), 0);
    assert!(snapshot.columns_of("sales", "ORDERS").is_none());
    assert!(snapshot.columns_of("sales", "missing").is_none());
    assert!(snapshot.columns_of("nobody", "orders").is_none());
}

#[test]
fn has_table_ignores_letter_case() {
    let snapshot = shop();
    assert!(snapshot.has_table("sales", "orders"));
    assert!(snapshot.has_table("sales", "ORDERS"));
    assert!(snapshot.has_table("sales", "notes"));
    assert!(!snapshot.has_table("sales", "order"));
    assert!(!snapshot.has_table("hr", "orders"));
    assert!(!snapshot.has_table("SALES", "orders"));
    assert!(!snapshot.has_table("nobody", "orders"));
}

#[test]
fn context_document_describes_one_subject() {
    let snapshot = shop();
    assert_eq!(
        snapshot.to_context_document("sales"),
        "## Database: sales\n\n### Table: orders\n\n#### Columns:\n- order_id (INTEGER) NOT NULL\n- total_amount (DOUBLE)\n\n### Table: Notes\n\nNo column information available.\n\n"
    );
    assert_eq!(
        snapshot.to_context_document("hr"),
        "## Database: hr\n\nNo tables found in this database.\n\n"
    );
    assert_eq!(
        snapshot.to_context_document("nobody"),
        "No databases found. Please upload data files first.\n"
    );
}

#[test]
fn ddl_lists_every_table() {
    let snapshot = shop();
    assert_eq!(
        snapshot.to_ddl(),
        "CREATE TABLE \"sales\".\"orders\" (\n    \"order_id\" INTEGER NOT NULL,\n    \"total_amount\" DOUBLE\n);\n\nCREATE TABLE \"sales\".\"Notes\" (\n);"
    );
    assert_eq!(SchemaSnapshot::new(0).to_ddl(), "");
}

#[test]
fn assumed_columns_are_shown_as_assumed() {
    let mut snapshot = SchemaSnapshot::new(0);
    let assumed = TableEntry::with_assumed_columns(
        "orders",
        vec![ColumnDescriptor::new("order_id", "INTEGER", false)],
    );
    assert!(assumed.assumed);
    assert!(!TableEntry::new("orders", vec![]).assumed);
    assert!(assumed.duplicate().assumed);
    assert!(snapshot.insert_subject("sales", vec![assumed]).is_ok());
    assert_eq!(
        snapshot.to_context_document("sales"),
        "## Database: sales\n\n### Table: orders\n\n#### Columns (assumed, not discovered):\n- order_id (INTEGER) NOT NULL\n\n"
    );
    assert_eq!(
        snapshot.to_ddl(),
        "-- columns assumed, not discovered\nCREATE TABLE \"sales\".\"orders\" (\n    \"order_id\" INTEGER NOT NULL\n);"
    );
}

#[test]
fn table_metadata_covers_the_selection_or_all() {
    let snapshot = shop();
    let both = vec!["hr".to_string(), "sales".to_string()];
    assert_eq!(
        snapshot.get_table_metadata(&both, Some("hr")),
        snapshot.to_context_document("hr")
    );
    assert_eq!(
        snapshot.get_table_metadata(&both, None),
        format!("{}{}", snapshot.to_context_document("hr"), snapshot.to_context_document("sales"))
    );
    assert_eq!(
        snapshot.get_table_metadata(&vec![], None),
        "No databases found. Please upload data files first.\n"
    );
    assert_eq!(
        snapshot.get_table_metadata(&both, Some("nobody")),
        "No databases found. Please upload data files first.\n"
    );
    assert_eq!(
        snapshot.get_table_metadata(&vec!["nobody".to_string()], None),
        "No databases found. Please upload data files first.\n"
    );
}

#[test]
fn repeated_table_names_keep_the_first() {
    let previous = shop();
    let mut builder = SnapshotBuilder::new(1);
    let listing = vec![
        TableEntry::new("a", vec![ColumnDescriptor::new("x", "INTEGER", true)]),
        TableEntry::new("b", vec![]),
        TableEntry::new("a", vec![]),
        TableEntry::new("A", vec![]),
        TableEntry::new("b", vec![ColumnDescriptor::new("y", "INTEGER", true)]),
    ];
    assert_eq!(builder.add_subject("sales", Some(listing), &previous), SubjectOutcome::Refreshed);
    let snapshot = builder.finish();
    assert_eq!(
        snapshot.tables_of("sales"),
        vec!["a".to_string(), "b".to_string(), "A".to_string()]
    );
    assert_eq!(snapshot.columns_of("sales", "a").unwrap().len(), 1);
    assert_eq!(snapshot.columns_of("sales", "b").unwrap().len(), 0);
    assert_eq!(
        nl_cube::catalog::keep_first_tables(&vec![]).len(),
        0
    );
}

#[test]
fn snapshot_remembers_its_time() {
    assert_eq!(shop().last_refreshed(), 42);
    assert_eq!(shop().subject_count(), 2);
}

#[test]
fn builder_sets_failing_subjects_aside() {
    let previous = shop();
    let mut builder = SnapshotBuilder::new(7);
    assert_eq!(
        builder.add_subject("sales", Some(vec![TableEntry::new("invoices", vec![])]), &previous),
        SubjectOutcome::Refreshed
    );
    assert_eq!(builder.add_subject("broken", None, &previous), SubjectOutcome::Skipped);
    assert_eq!(builder.add_subject("empty_one", Some(vec![]), &previous), SubjectOutcome::Refreshed);
    assert_eq!(builder.add_subject("sales", Some(vec![]), &previous), SubjectOutcome::Skipped);
    assert_eq!(builder.add_subject("bad name", Some(vec![]), &previous), SubjectOutcome::Skipped);
    assert_eq!(builder.add_subject("hr", None, &previous), SubjectOutcome::KeptStale);
    assert_eq!(
        builder.skipped(),
        &vec!["broken".to_string(), "sales".to_string(), "bad name".to_string()]
    );
    assert_eq!(builder.stale(), &vec!["hr".to_string()]);
    let snapshot = builder.finish();
    assert_eq!(snapshot.subject_count(), 3);
    assert_eq!(snapshot.last_refreshed(), 7);
    assert_eq!(snapshot.tables_of("sales"), vec!["invoices".to_string()]);
    assert!(snapshot.tables_of("empty_one").is_empty());
    assert!(snapshot.subject("broken").is_none());
    assert!(snapshot.subject("hr").is_some());
}

fn scan(name: &str, tables: Option<Vec<TableEntry>>) -> SubjectScan {
    SubjectScan { name: name.to_string(), tables }
}

#[test]
fn refresh_replaces_the_whole_cache() {
    let mut connections = MultiDbConnectionManager::new("main.db".to_string(), "data".to_string());
    let existing = vec!["sales".to_string(), "hr".to_string()];
    let mut manager =
        SchemaManager::with_multi_db(&mut connections, "data".to_string(), &existing, 1);
    assert_eq!(manager.data_dir(), "data");
    assert_eq!(
        connections.registered_path("sales"),
        Some("data/sales/sales.duckdb".to_string())
    );
    assert_eq!(connections.registered_path("hr"), Some("data/hr/hr.duckdb".to_string()));
    assert_eq!(connections.registered_path("other"), None);
    assert!(manager.tables_of("sales").is_empty());
    assert_eq!(manager.snapshot().last_refreshed(), 1);

    manager.install(shop());
    assert_eq!(manager.tables_of("sales"), vec!["orders".to_string(), "Notes".to_string()]);
    assert!(manager.has_table("sales", "ORDERS"));
    assert_eq!(manager.columns_of("sales", "orders").unwrap().len(), 2);
    assert_eq!(
        manager.qualify("select 1 from orders", "sales"),
        "select 1 from \"sales\".\"orders\";"
    );
    assert_eq!(manager.to_context_document("hr"), "## Database: hr\n\nNo tables found in this database.\n\n");
    assert_eq!(
        manager.get_table_metadata(&vec!["hr".to_string()], None),
        "## Database: hr\n\nNo tables found in this database.\n\n"
    );

    let mut next = SchemaSnapshot::new(2);
    assert!(next.insert_subject("sales", vec![TableEntry::new("invoices", vec![])]).is_ok());
    manager.install(next);
    assert_eq!(manager.tables_of("sales"), vec!["invoices".to_string()]);
    assert!(manager.columns_of("sales", "orders").is_none());
    assert!(manager.tables_of("hr").is_empty());
    assert_eq!(manager.snapshot().last_refreshed(), 2);
}

#[test]
fn refresh_tolerates_failing_subjects() {
    let mut connections = MultiDbConnectionManager::new("main.db".to_string(), "data".to_string());
    let mut manager = SchemaManager::with_multi_db(&mut connections, "data".to_string(), &vec![], 1);
    manager.install(shop());

    let scans = vec![
        scan("sales", None),
        scan(
            "hr",
            Some(vec![TableEntry::new(
                "people",
                vec![ColumnDescriptor::new("id", "INTEGER", false)],
            )]),
        ),
        scan("fresh", Some(vec![])),
        scan("never_seen", None),
        scan("no good", Some(vec![])),
        scan("hr", Some(vec![])),
    ];
    let report = manager.refresh_cache(&scans, 99);
    assert_eq!(report.stale, vec!["sales".to_string()]);
    assert_eq!(
        report.skipped,
        vec!["never_seen".to_string(), "no good".to_string(), "hr".to_string()]
    );
    assert_eq!(manager.snapshot().last_refreshed(), 99);
    assert_eq!(manager.snapshot().subject_count(), 3);
    assert_eq!(manager.tables_of("sales"), vec!["orders".to_string(), "Notes".to_string()]);
    assert_eq!(manager.columns_of("sales", "orders").unwrap().len(), 2);
    assert_eq!(manager.tables_of("hr"), vec!["people".to_string()]);
    assert_eq!(manager.columns_of("hr", "people").unwrap()[0].name, "id");
    assert!(manager.snapshot().subject("fresh").is_some());
    assert!(manager.snapshot().subject("never_seen").is_none());

    let report = manager.refresh_cache(&vec![scan("hr", Some(vec![]))], 100);
    assert!(report.stale.is_empty());
    assert!(report.skipped.is_empty());
    assert_eq!(manager.snapshot().subject_count(), 1);
    assert!(manager.tables_of("sales").is_empty());
    assert!(manager.tables_of("hr").is_empty());
}

#[test]
fn later_registration_replaces_earlier() {
    let mut connections = MultiDbConnectionManager::new("main.db".to_string(), "data".to_string());
    assert_eq!(connections.main_db_path(), "main.db");
    connections.register_subject_db("sales", "a.duckdb");
    connections.register_subject_db("hr", "b.duckdb");
    connections.register_subject_db("sales", "c.duckdb");
    assert_eq!(connections.registered_path("sales"), Some("c.duckdb".to_string()));
    assert_eq!(connections.registered_path("hr"), Some("b.duckdb".to_string()));
    assert_eq!(connections.get_subject_db_path("sales"), "data/sales/sales.duckdb");
    assert_eq!(connections.get_subject_dir("sales"), "data/sales");
}
