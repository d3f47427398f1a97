use nl_cube::api::{
    build_create_schema_statement, build_drop_schema_statement, choose_direct_subject,
    determine_query_subject, direct_query_subject, export_refusal, extract_schema_from_query,
    sanitize_file_name, stripped_from, strip_table_qualifiers,
    ExecuteQueryRequest, NlQueryRequest, Subject, SystemStatus,
};
use nl_cube::config::{AppConfig, CliArgs};
use nl_cube::db::DuckDBConnectionManager;

fn names(v: &[&str]) -> Vec<String> {
    v.iter().map(|s| s.to_string()).collect()
}

#[test]
fn qualifiers_are_stripped_for_direct_connections() {
    assert_eq!(
        strip_table_qualifiers("SELECT * FROM \"db1\".\"orders\" o"),
        "SELECT * FROM \"orders\" o"
    );
    assert_eq!(
        strip_table_qualifiers(
            "SELECT * FROM 'a' . 'b' JOIN \"c\".\"d\" ON \"x\" = 1"
        ),
        "SELECT * FROM \"b\" JOIN \"d\" ON \"x\" = 1"
    );
    assert_eq!(
        strip_table_qualifiers("SELECT a.b FROM t"),
        "SELECT a.b FROM t"
    );
    assert_eq!(strip_table_qualifiers(""), "");
}

#[test]
fn replacement_outcome_is_taken_or_not() {
    assert_eq!(stripped_from("q", Some("r".to_string())), "r");
    assert_eq!(stripped_from("q", None), "q");
}

#[test]
fn schema_is_read_from_the_first_qualified_name() {
    assert_eq!(
        extract_schema_from_query("SELECT * FROM sales.orders"),
        Some("sales".to_string())
    );
    assert_eq!(
        extract_schema_from_query("SELECT * FROM \"hr\".\"people\" JOIN x.y"),
        Some("hr".to_string())
    );
    assert_eq!(extract_schema_from_query("SELECT 1 FROM orders"), None);
    assert_eq!(extract_schema_from_query(""), None);
}

#[test]
fn direct_subject_prefers_the_selection() {
    let subjects = names(&["first", "second"]);
    assert_eq!(direct_query_subject(Some("picked"), "SELECT * FROM a.b", &subjects), "picked");
    assert_eq!(direct_query_subject(None, "SELECT * FROM a.b", &subjects), "a");
    assert_eq!(direct_query_subject(None, "SELECT * FROM b", &subjects), "first");
    assert_eq!(direct_query_subject(None, "SELECT * FROM b", &vec![]), "main");
    assert_eq!(choose_direct_subject(None, Some("n".to_string()), &subjects), "n");
    assert_eq!(choose_direct_subject(None, None, &subjects), "first");
    assert_eq!(choose_direct_subject(Some("c"), None, &vec![]), "c");
}

#[test]
fn question_subject_is_the_selection_if_still_known() {
    let subjects = names(&["first", "second"]);
    assert_eq!(determine_query_subject(&subjects, Some("second")).unwrap(), "second");
    assert_eq!(determine_query_subject(&subjects, Some("gone")).unwrap(), "first");
    assert_eq!(determine_query_subject(&subjects, None).unwrap(), "first");
    let refusal = determine_query_subject(&vec![], Some("second")).unwrap_err();
    assert_eq!(refusal.status, 400);
    assert_eq!(
        refusal.message,
        "No subjects found. Please create a subject and upload data files."
    );
}

#[test]
fn schema_statements_quote_the_subject() {
    assert_eq!(build_create_schema_statement("sales"), "CREATE SCHEMA IF NOT EXISTS \"sales\"");
    assert_eq!(build_drop_schema_statement("sales"), "DROP SCHEMA IF EXISTS \"sales\" CASCADE");
}

#[test]
fn export_is_refused_by_format() {
    for format in ["csv", "json", "parquet"] {
        let r = export_refusal(format);
        assert_eq!(r.status, 501);
        assert_eq!(r.message, format!("Export to {} not yet implemented", format));
    }
    for format in ["xml", "", "CSV"] {
        let r = export_refusal(format);
        assert_eq!(r.status, 400);
        assert_eq!(r.message, "Unsupported export format");
    }
}

#[test]
fn uploaded_names_are_made_safe() {
    assert_eq!(sanitize_file_name("my file (1).csv"), "my_file__1_.csv");
    assert_eq!(sanitize_file_name("../etc/passwd"), ".._etc_passwd");
    assert_eq!(sanitize_file_name("données-2024_v2.parquet"), "données-2024_v2.parquet");
    assert_eq!(sanitize_file_name(""), "");
}

#[test]
fn status_counts_seconds_since_startup() {
    let s = SystemStatus::new("0.1.0", 100, 160, 2, 5);
    assert_eq!(s.version, "0.1.0");
    assert_eq!(s.uptime_seconds, 60);
    assert_eq!(s.subject_count, 2);
    assert_eq!(s.table_count, 5);
    assert_eq!(s.report_count, 0);
    assert_eq!(SystemStatus::new("v", 160, 100, 0, 0).uptime_seconds, -60);
    assert_eq!(SystemStatus::new("v", i64::MIN, i64::MAX, 0, 0).uptime_seconds, i64::MAX);
    assert_eq!(SystemStatus::new("v", i64::MAX, i64::MIN, 0, 0).uptime_seconds, i64::MIN);
    assert_eq!(SystemStatus::new("v", -1, i64::MAX, 0, 0).uptime_seconds, i64::MAX);
    assert_eq!(SystemStatus::new("v", 1, i64::MIN, 0, 0).uptime_seconds, i64::MIN);
    assert_eq!(SystemStatus::new("v", -1, i64::MAX - 1, 0, 0).uptime_seconds, i64::MAX);
}

#[test]
fn requests_and_listings_hold_plain_values() {
    let e = ExecuteQueryRequest { query: "SELECT 1".to_string() };
    let n = NlQueryRequest { question: "how many".to_string() };
    let s = Subject { name: "sales".to_string(), tables: names(&["orders"]), file_count: 3 };
    assert_eq!(e.query, "SELECT 1");
    assert_eq!(n.question, "how many");
    assert_eq!((s.name.as_str(), s.tables.len(), s.file_count), ("sales", 1, 3));
}

#[test]
fn command_line_overrides_the_file() {
    let args = CliArgs {
        config: None,
        host: Some("0.0.0.0".to_string()),
        port: None,
        data_dir: Some("/srv/data".to_string()),
    };
    let config = AppConfig::new(&args, AppConfig::default());
    assert_eq!(config.web.host, "0.0.0.0");
    assert_eq!(config.web.port, 3000);
    assert_eq!(config.data_dir, "/srv/data");
    assert_eq!(config.database.connection_string, "nl-cube.db");
    assert_eq!(config.database.pool_size, 5);
    assert_eq!(config.llm.backend, "local");
    assert_eq!(config.llm.model, "sqlcoder");
    assert!(config.llm.api_key.is_none());
    assert!(config.llm.api_url.is_none());

    let none = CliArgs { config: None, host: None, port: Some(8080), data_dir: None };
    let config = AppConfig::new(&none, AppConfig::default());
    assert_eq!(config.web.host, "127.0.0.1");
    assert_eq!(config.web.port, 8080);
    assert_eq!(config.data_dir, "data");
}

#[test]
fn configuration_is_looked_for_in_order() {
    let named = CliArgs {
        config: Some("my.toml".to_string()),
        host: None,
        port: None,
        data_dir: None,
    };
    assert_eq!(named.config_locations(), names(&["my.toml"]));
    let unnamed = CliArgs { config: None, host: None, port: None, data_dir: None };
    assert_eq!(
        unnamed.config_locations(),
        names(&["config.toml", "config/config.toml", "/etc/nl-cube/config.toml"])
    );
}

#[test]
fn connection_manager_keeps_its_database() {
    let m = DuckDBConnectionManager::new("nl-cube.db".to_string());
    assert_eq!(m.connection_string(), "nl-cube.db");
}
