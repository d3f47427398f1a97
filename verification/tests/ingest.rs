use nl_cube::ingest::{
    file_extension, ColumnSchema, CsvIngestor, DataType, FileKind, IngestError, IngestManager,
    ParquetIngestor, TableSchema,
};

#[test]
fn data_types_are_read_in_any_case() {
    assert!(matches!(DataType::parse("INTEGER"), DataType::Integer));
    assert!(matches!(DataType::parse("bigint"), DataType::BigInt));
    assert!(matches!(DataType::parse("Double"), DataType::Double));
    assert!(matches!(DataType::parse("VARCHAR"), DataType::String));
    assert!(matches!(DataType::parse("text"), DataType::String));
    assert!(matches!(DataType::parse("BOOLEAN"), DataType::Boolean));
    assert!(matches!(DataType::parse("date"), DataType::Date));
    assert!(matches!(DataType::parse("TIMESTAMP"), DataType::Timestamp));
    assert!(matches!(DataType::parse("DECIMAL(10,2)"), DataType::Unknown(t) if t == "decimal(10,2)"));
    assert!(matches!(DataType::parse(""), DataType::Unknown(t) if t.is_empty()));
    assert!(matches!(DataType::parse("integers"), DataType::Unknown(t) if t == "integers"));
}

#[test]
fn table_info_rows_become_columns() {
    let c = ColumnSchema::from_table_info("id", "INTEGER", true);
    assert_eq!(c.name, "id");
    assert!(matches!(c.data_type, DataType::Integer));
    assert!(!c.nullable);
    let d = ColumnSchema::from_table_info("note", "blob", false);
    assert!(matches!(d.data_type, DataType::Unknown(t) if t == "blob"));
    assert!(d.nullable);
}

#[test]
fn reported_columns_replace_inferred_ones() {
    let mut schema = TableSchema {
        name: "t".to_string(),
        columns: vec![ColumnSchema::from_table_info("a", "INTEGER", false)],
    };
    schema.update_columns(vec![]);
    assert_eq!(schema.columns.len(), 1);
    assert_eq!(schema.columns[0].name, "a");
    schema.update_columns(vec![
        ColumnSchema::from_table_info("b", "DATE", false),
        ColumnSchema::from_table_info("c", "DATE", true),
    ]);
    assert_eq!(schema.name, "t");
    assert_eq!(schema.columns.len(), 2);
    assert_eq!(schema.columns[1].name, "c");
}

#[test]
fn extensions_follow_the_last_dot() {
    assert_eq!(file_extension("a/b/data.csv"), Some("csv".to_string()));
    assert_eq!(file_extension("data.tar.GZ"), Some("GZ".to_string()));
    assert_eq!(file_extension("a.b/data"), None);
    assert_eq!(file_extension(".hidden"), None);
    assert_eq!(file_extension("dir/.hidden.txt"), Some("txt".to_string()));
    assert_eq!(file_extension("data."), Some("".to_string()));
    assert_eq!(file_extension(""), None);
    assert_eq!(file_extension("."), None);
    assert_eq!(file_extension(".."), None);
    assert_eq!(file_extension("..."), None);
    assert_eq!(file_extension("a/.."), None);
    assert_eq!(file_extension("..x"), Some("x".to_string()));
}

#[test]
fn csv_statements_are_spelled_out() {
    let csv = CsvIngestor::new("main.db".to_string());
    assert_eq!(csv.sample_size(), 1000);
    let s = csv.statements("/tmp/o.csv", "orders");
    assert_eq!(s.drop_table, "DROP TABLE IF EXISTS \"orders\"");
    assert_eq!(
        s.create_table,
        "CREATE TABLE \"orders\" AS SELECT * FROM read_csv_auto('/tmp/o.csv', HEADER=true, AUTO_DETECT=true)"
    );
    assert_eq!(s.verify, "SELECT COUNT(*) FROM \"orders\"");
    assert_eq!(
        csv.inference_statement("/tmp/o.csv"),
        "CREATE TABLE temp_schema AS SELECT * FROM read_csv_auto('/tmp/o.csv', SAMPLE_SIZE=1000)"
    );
    let other = CsvIngestor::with_sample_size("main.db".to_string(), 0);
    assert_eq!(
        other.inference_statement("f"),
        "CREATE TABLE temp_schema AS SELECT * FROM read_csv_auto('f', SAMPLE_SIZE=0)"
    );
    let big = CsvIngestor::with_sample_size("main.db".to_string(), 1234567890);
    assert_eq!(big.sample_size(), 1234567890);
    assert_eq!(
        big.inference_statement("f"),
        "CREATE TABLE temp_schema AS SELECT * FROM read_csv_auto('f', SAMPLE_SIZE=1234567890)"
    );
}

#[test]
fn parquet_statements_are_spelled_out() {
    let parquet = ParquetIngestor::new();
    let s = parquet.statements("/tmp/o.parquet", "orders");
    assert_eq!(s.drop_table, "DROP TABLE IF EXISTS \"orders\"");
    assert_eq!(
        s.create_table,
        "CREATE TABLE \"orders\" AS SELECT * FROM read_parquet('/tmp/o.parquet', BINARY_AS_STRING=TRUE, FILENAME=TRUE)"
    );
    assert_eq!(s.verify, "SELECT COUNT(*) FROM \"orders\"");
    assert_eq!(
        parquet.inference_statement("/tmp/o.parquet"),
        "CREATE TABLE temp_schema AS SELECT * FROM read_parquet('/tmp/o.parquet', BINARY_AS_STRING=TRUE) LIMIT 0"
    );
}

#[test]
fn manager_plans_by_extension() {
    let manager = IngestManager::new();
    let plan = manager.plan("up/orders.CSV", "orders", "sales", "data").unwrap();
    assert_eq!(plan.kind, FileKind::Csv);
    assert_eq!(plan.subject_dir, "data/sales");
    assert_eq!(plan.db_path, "data/sales/sales.duckdb");
    assert_eq!(
        plan.statements.create_table,
        "CREATE TABLE \"orders\" AS SELECT * FROM read_csv_auto('up/orders.CSV', HEADER=true, AUTO_DETECT=true)"
    );
    assert_eq!(
        plan.inference,
        "CREATE TABLE temp_schema AS SELECT * FROM read_csv_auto('up/orders.CSV', SAMPLE_SIZE=1000)"
    );
    let plan = IngestManager::with_connection_string("main.db".to_string())
        .plan("x.parquet", "t", "hr", "/var/data")
        .unwrap();
    assert_eq!(plan.kind, FileKind::Parquet);
    assert_eq!(plan.db_path, "/var/data/hr/hr.duckdb");
    assert_eq!(
        plan.statements.create_table,
        "CREATE TABLE \"t\" AS SELECT * FROM read_parquet('x.parquet', BINARY_AS_STRING=TRUE, FILENAME=TRUE)"
    );
    assert_eq!(plan.statements.drop_table, "DROP TABLE IF EXISTS \"t\"");
    assert_eq!(plan.statements.verify, "SELECT COUNT(*) FROM \"t\"");
}

#[test]
fn manager_refuses_other_files() {
    let manager = IngestManager::default();
    match manager.plan("notes.txt", "t", "s", "data") {
        Err(e @ IngestError::UnsupportedFileType(_)) => {
            assert_eq!(e.message(), "Unsupported file type: txt")
        }
        other => panic!("expected a refusal, got {:?}", other),
    }
    for path in ["noextension", "..", "up/..", ".hidden"] {
        match manager.plan(path, "t", "s", "data") {
            Err(IngestError::UnsupportedFileType(m)) => assert_eq!(m, "No extension"),
            other => panic!("expected a refusal, got {:?}", other),
        }
    }
}

#[test]
fn ingest_errors_describe_themselves() {
    assert_eq!(IngestError::IoError("gone".to_string()).message(), "IO error: gone");
    assert_eq!(
        IngestError::DatabaseError("locked".to_string()).message(),
        "Database error: locked"
    );
    assert_eq!(
        IngestError::UnsupportedFileType("xls".to_string()).message(),
        "Unsupported file type: xls"
    );
}
