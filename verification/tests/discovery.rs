use nl_cube::discovery::{
    build_assumed_columns, build_zero_row_select, column_from_catalog_row, column_from_name,
    column_from_table_info, keep_user_tables, nullable_from_flag, ColumnProbe, ColumnSource,
    ColumnStage, ColumnStep, NotNullFlag, TableEvent, TableProbe, TableStage, TableStep,
};

fn names(v: &[&str]) -> Vec<String> {
    v.iter().map(|s| s.to_string()).collect()
}

fn listing_sql(step: TableStep) -> (String, usize) {
    match step {
        TableStep::RunListing { sql, name_column } => (sql, name_column),
        other => panic!("expected a listing, got {:?}", other),
    }
}

#[test]
fn internal_tables_are_dropped() {
    assert_eq!(
        keep_user_tables(&names(&["orders", "sqlite_seq", "duck_x", "pg_class", "pgx", "sales"])),
        names(&["orders", "pgx", "sales"])
    );
    assert!(keep_user_tables(&names(&["sqlite_a"])).is_empty());
}

#[test]
fn table_probe_takes_first_listing_with_tables() {
    let mut probe = TableProbe::new();
    assert_eq!(probe.stage(), TableStage::CatalogQuery);
    let (sql, column) = listing_sql(probe.step());
    assert_eq!(
        sql,
        "SELECT name FROM sqlite_master WHERE type='table' AND name NOT LIKE 'sqlite_%' AND name NOT LIKE 'duck_%' AND name NOT LIKE 'pg_%'"
    );
    assert_eq!(column, 0);
    probe.advance(TableEvent::Listed(names(&["orders", "sqlite_stat", "items"])));
    assert!(probe.is_done());
    assert_eq!(probe.tables(), &names(&["orders", "items"]));
    assert!(matches!(probe.step(), TableStep::Finished));
}

#[test]
fn table_probe_walks_the_chain_in_order() {
    let mut probe = TableProbe::new();
    probe.advance(TableEvent::ListingFailed);
    assert_eq!(probe.stage(), TableStage::ListCommand);
    assert_eq!(listing_sql(probe.step()), ("SHOW TABLES".to_string(), 0));
    probe.advance(TableEvent::Listed(vec![]));
    assert_eq!(probe.stage(), TableStage::Pragma);
    assert_eq!(listing_sql(probe.step()), ("PRAGMA table_list".to_string(), 1));
    probe.advance(TableEvent::Listed(names(&["sqlite_master"])));
    assert_eq!(probe.stage(), TableStage::Conventional);
    let mut tried = Vec::new();
    let answers = [true, false, false, true];
    for ran in answers {
        match probe.step() {
            TableStep::TryTable { name, sql } => {
                assert_eq!(sql, format!("SELECT * FROM \"{}\" LIMIT 0", name));
                tried.push(name);
            }
            other => panic!("expected a trial, got {:?}", other),
        }
        probe.advance(TableEvent::Tried(ran));
    }
    assert_eq!(tried, names(&["orders", "customers", "products", "sales"]));
    assert!(probe.is_done());
    assert_eq!(probe.tables(), &names(&["orders", "sales"]));
}

#[test]
fn table_probe_reports_no_tables_when_all_fails() {
    let mut probe = TableProbe::new();
    probe.advance(TableEvent::ListingFailed);
    probe.advance(TableEvent::ListingFailed);
    probe.advance(TableEvent::ListingFailed);
    for _ in 0..4 {
        probe.advance(TableEvent::Tried(false));
    }
    assert!(probe.is_done());
    assert!(probe.tables().is_empty());
}

#[test]
fn table_probe_ignores_events_out_of_turn() {
    let mut probe = TableProbe::new();
    probe.advance(TableEvent::Tried(true));
    assert_eq!(probe.stage(), TableStage::CatalogQuery);
    assert!(probe.tables().is_empty());
    probe.advance(TableEvent::Listed(names(&["a"])));
    assert!(probe.is_done());
    probe.advance(TableEvent::Listed(names(&["b"])));
    probe.advance(TableEvent::Tried(true));
    probe.advance(TableEvent::ListingFailed);
    assert_eq!(probe.tables(), &names(&["a"]));
}

#[test]
fn nullability_flags_come_in_two_forms() {
    assert!(nullable_from_flag(NotNullFlag::Bool(false)));
    assert!(!nullable_from_flag(NotNullFlag::Bool(true)));
    assert!(nullable_from_flag(NotNullFlag::Int(0)));
    assert!(!nullable_from_flag(NotNullFlag::Int(1)));
    assert!(!nullable_from_flag(NotNullFlag::Int(-1)));
}

#[test]
fn rows_become_columns() {
    let a = column_from_catalog_row("id", "INTEGER", "NO");
    assert_eq!((a.name.as_str(), a.declared_type.as_str(), a.nullable), ("id", "INTEGER", false));
    let b = column_from_catalog_row("note", "VARCHAR", "YES");
    assert!(b.nullable);
    assert!(!column_from_catalog_row("note", "VARCHAR", "yes").nullable);
    let c = column_from_table_info("x", "DATE", NotNullFlag::Int(1));
    assert_eq!((c.name.as_str(), c.declared_type.as_str(), c.nullable), ("x", "DATE", false));
    let d = column_from_name("y");
    assert_eq!((d.name.as_str(), d.declared_type.as_str(), d.nullable), ("y", "UNKNOWN", true));
}

#[test]
fn zero_row_select_quotes_the_table() {
    assert_eq!(build_zero_row_select("orders"), "SELECT * FROM \"orders\" LIMIT 0");
}

fn run_sql(step: ColumnStep) -> (String, ColumnStage) {
    match step {
        ColumnStep::Run { sql, strategy } => (sql, strategy),
        ColumnStep::Finished => panic!("expected a statement"),
    }
}

#[test]
fn column_probe_stops_at_first_strategy_that_runs() {
    let mut probe = ColumnProbe::new("items");
    assert_eq!(
        run_sql(probe.step()),
        (
            "SELECT column_name, data_type, is_nullable FROM information_schema.columns WHERE table_name = 'items' ORDER BY ordinal_position".to_string(),
            ColumnStage::CatalogQuery
        )
    );
    probe.advance(Some(vec![
        column_from_catalog_row("id", "INTEGER", "NO"),
        column_from_catalog_row("name", "VARCHAR", "YES"),
    ]));
    assert!(probe.is_done());
    assert_eq!(probe.source(), ColumnSource::CatalogQuery);
    assert_eq!(probe.columns().len(), 2);
    assert_eq!(probe.columns()[1].name, "name");
    assert!(matches!(probe.step(), ColumnStep::Finished));
}

#[test]
fn column_probe_falls_back_on_failure() {
    let mut probe = ColumnProbe::new("items");
    probe.advance(None);
    assert_eq!(
        run_sql(probe.step()),
        ("PRAGMA table_info(\"items\")".to_string(), ColumnStage::TableInfo)
    );
    probe.advance(None);
    assert_eq!(
        run_sql(probe.step()),
        ("SELECT * FROM \"items\" LIMIT 0".to_string(), ColumnStage::ZeroRowSelect)
    );
    probe.advance(Some(vec![column_from_name("a"), column_from_name("b")]));
    assert!(probe.is_done());
    assert_eq!(probe.source(), ColumnSource::ZeroRowSelect);
    assert_eq!(probe.columns()[0].declared_type, "UNKNOWN");
    assert!(probe.columns()[0].nullable);

    let mut second = ColumnProbe::new("items");
    second.advance(None);
    second.advance(Some(vec![column_from_table_info("a", "INTEGER", NotNullFlag::Bool(true))]));
    assert_eq!(second.source(), ColumnSource::TableInfo);
    assert!(!second.columns()[0].nullable);
}

#[test]
fn column_probe_marks_assumed_columns() {
    let mut probe = ColumnProbe::new("orders");
    probe.advance(None);
    probe.advance(None);
    probe.advance(None);
    assert!(probe.is_done());
    assert_eq!(probe.source(), ColumnSource::Assumed);
    let got: Vec<(String, String, bool)> = probe
        .columns()
        .iter()
        .map(|c| (c.name.clone(), c.declared_type.clone(), c.nullable))
        .collect();
    assert_eq!(
        got,
        vec![
            ("order_id".to_string(), "INTEGER".to_string(), false),
            ("customer_id".to_string(), "INTEGER".to_string(), true),
            ("order_date".to_string(), "DATE".to_string(), true),
            ("total_amount".to_string(), "DOUBLE".to_string(), true),
        ]
    );

    let mut empty_listing = ColumnProbe::new("orders");
    empty_listing.advance(Some(vec![]));
    assert!(!empty_listing.is_done());
    empty_listing.advance(Some(vec![]));
    assert!(!empty_listing.is_done());
    empty_listing.advance(Some(vec![]));
    assert!(empty_listing.is_done());
    assert_eq!(empty_listing.source(), ColumnSource::Assumed);
    assert_eq!(empty_listing.columns().len(), 4);
    let entry = empty_listing.table_entry();
    assert_eq!(entry.name, "orders");
    assert!(entry.assumed);
    assert_eq!(entry.columns.len(), 4);

    let mut other = ColumnProbe::new("items");
    other.advance(None);
    other.advance(None);
    other.advance(None);
    assert!(other.is_done());
    assert_eq!(other.source(), ColumnSource::Nothing);
    assert!(other.columns().is_empty());
    assert!(build_assumed_columns("Orders").is_empty());
}

#[test]
fn column_probe_goes_on_after_an_empty_listing() {
    let mut probe = ColumnProbe::new("items");
    probe.advance(Some(vec![]));
    assert!(!probe.is_done());
    assert_eq!(
        run_sql(probe.step()),
        ("PRAGMA table_info(\"items\")".to_string(), ColumnStage::TableInfo)
    );
    probe.advance(Some(vec![
        column_from_table_info("a", "INTEGER", NotNullFlag::Int(1)),
        column_from_table_info("b", "VARCHAR", NotNullFlag::Int(0)),
    ]));
    assert!(probe.is_done());
    assert_eq!(probe.source(), ColumnSource::TableInfo);
    assert_eq!(probe.columns().len(), 2);
    let entry = probe.table_entry();
    assert_eq!(entry.name, "items");
    assert!(!entry.assumed);
    assert_eq!(entry.columns[1].name, "b");

    let mut last = ColumnProbe::new("items");
    last.advance(Some(vec![]));
    last.advance(None);
    assert_eq!(
        run_sql(last.step()),
        ("SELECT * FROM \"items\" LIMIT 0".to_string(), ColumnStage::ZeroRowSelect)
    );
    last.advance(Some(vec![]));
    assert!(last.is_done());
    assert_eq!(last.source(), ColumnSource::Nothing);
    assert!(last.columns().is_empty());
    assert!(!last.table_entry().assumed);
}

#[test]
fn column_probe_stays_done() {
    let mut probe = ColumnProbe::new("items");
    probe.advance(Some(vec![column_from_name("a")]));
    probe.advance(None);
    probe.advance(Some(vec![column_from_name("b"), column_from_name("c")]));
    assert_eq!(probe.columns().len(), 1);
    assert_eq!(probe.source(), ColumnSource::CatalogQuery);
}
