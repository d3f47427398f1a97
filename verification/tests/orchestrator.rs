use nl_cube::api::QueryMetadata;
use nl_cube::catalog::{ColumnDescriptor, SchemaSnapshot, TableEntry};
use nl_cube::config::LlmConfig;
use nl_cube::llm::{LlmError, LocalLlmProvider, SqlGenerator};
use nl_cube::orchestrator::{begin, fallback_statement, NlAnswer, NlError, NlStage, Verdict};

fn sales() -> SchemaSnapshot {
    let mut snapshot = SchemaSnapshot::new(0);
    let orders = TableEntry::new(
        "orders",
        vec![
            ColumnDescriptor::new("order_id", "INTEGER", false),
            ColumnDescriptor::new("total_amount", "DOUBLE", true),
        ],
    );
    assert!(snapshot.insert_subject("sales", vec![orders]).is_ok());
    assert!(snapshot.insert_subject("hr", vec![TableEntry::new("people", vec![])]).is_ok());
    assert!(snapshot.insert_subject("bare", vec![]).is_ok());
    snapshot
}

struct Scripted {
    answer: Result<String, String>,
}

impl SqlGenerator for Scripted {
    fn generate_sql(&self, _question: &str, _schema: &str) -> Result<String, LlmError> {
        match &self.answer {
            Ok(text) => Ok(text.clone()),
            Err(m) => Err(LlmError::ConnectionError(m.clone())),
        }
    }
}

fn engine(sql: &str) -> Result<QueryMetadata, String> {
    if sql == "SELECT COUNT(*) FROM \"sales\".\"orders\";" {
        Ok(QueryMetadata {
            columns: vec!["count_star()".to_string()],
            row_count: 1,
            execution_time_ms: 3,
        })
    } else {
        Err(format!("Parser Error: syntax error in {}", sql))
    }
}

fn run_nl_query(
    question: &str,
    subject: &str,
    snapshot: &SchemaSnapshot,
    generator: &dyn SqlGenerator,
) -> Result<NlAnswer, NlError> {
    let pending = begin(question, subject, snapshot)?;
    let raw = generator.generate_sql(&pending.question, &pending.context);
    let mut execution = pending.generated(raw, snapshot)?;
    loop {
        let outcome = engine(&execution.sql_used);
        match execution.executed(outcome, snapshot) {
            Verdict::Answer(a) => return Ok(a),
            Verdict::Retry(next) => execution = next,
            Verdict::Fail(e) => return Err(e),
        }
    }
}

#[test]
fn end_to_end_count_of_orders() {
    let snapshot = sales();
    let generator = Scripted { answer: Ok("```sql\nSELECT COUNT(*) FROM orders\n```".to_string()) };
    let answer = run_nl_query("how many orders", "sales", &snapshot, &generator).unwrap();
    assert_eq!(answer.row_count, 1);
    assert_eq!(answer.columns.len(), 1);
    assert_eq!(answer.execution_time_ms, 3);
    assert_eq!(answer.sql_used, "SELECT COUNT(*) FROM \"sales\".\"orders\";");
    assert!(answer.sql_used.contains("\"sales\".\"orders\""));
}

#[test]
fn fallback_after_unrelated_answer() {
    let snapshot = sales();
    let generator = Scripted { answer: Ok("I would rather talk about the weather.".to_string()) };
    let answer = run_nl_query("how many orders", "sales", &snapshot, &generator).unwrap();
    assert_eq!(answer.row_count, 1);
    assert_eq!(answer.columns, vec!["count_star()".to_string()]);
    assert_eq!(answer.sql_used, "SELECT COUNT(*) FROM \"sales\".\"orders\";");
}

#[test]
fn fallback_after_answer_without_sql() {
    let snapshot = sales();
    let pending = begin("q", "sales", &snapshot).unwrap();
    let execution = pending.generated(Ok("-- no idea".to_string()), &snapshot).unwrap();
    assert!(execution.fallback);
    assert_eq!(execution.stage(), NlStage::FallbackAttempted);
    assert_eq!(execution.sql_used, "SELECT COUNT(*) FROM \"sales\".\"orders\";");
    assert!(matches!(&execution.first_error, Some(NlError::Extraction(raw)) if raw == "-- no idea"));
    match execution.executed(Err("boom".to_string()), &snapshot) {
        Verdict::Fail(NlError::Extraction(raw)) => assert_eq!(raw, "-- no idea"),
        other => panic!("expected the extraction error, got {:?}", other),
    }
}

#[test]
fn extraction_failure_without_fallback_table_fails() {
    let snapshot = sales();
    let pending = begin("q", "hr", &snapshot).unwrap();
    match pending.generated(Ok("   ".to_string()), &snapshot) {
        Err(NlError::Extraction(raw)) => assert_eq!(raw, "   "),
        other => panic!("expected an extraction error, got {:?}", other),
    }
}

#[test]
fn generation_error_is_surfaced_without_fallback() {
    let snapshot = sales();
    let generator = Scripted { answer: Err("connection refused".to_string()) };
    match run_nl_query("q", "sales", &snapshot, &generator) {
        Err(NlError::Generation(LlmError::ConnectionError(m))) => {
            assert_eq!(m, "connection refused")
        }
        other => panic!("expected the model's error, got {:?}", other),
    }
    let local = LocalLlmProvider::new(&LlmConfig {
        backend: "local".to_string(),
        model: "m".to_string(),
        api_key: None,
        api_url: None,
    })
    .unwrap();
    match run_nl_query("q", "sales", &snapshot, &local) {
        Err(e @ NlError::Generation(LlmError::ConfigError(_))) => assert_eq!(
            e.message(),
            "LLM configuration error: Local LLM provider not fully implemented"
        ),
        other => panic!("expected a configuration error, got {:?}", other),
    }
}

#[test]
fn unknown_subject_and_empty_subject_end_at_once() {
    let snapshot = sales();
    match begin("q", "nobody", &snapshot) {
        Err(e @ NlError::UnknownSubject(_)) => assert_eq!(e.message(), "Unknown subject: nobody"),
        other => panic!("expected an unknown subject, got {:?}", other),
    }
    match begin("q", "bare", &snapshot) {
        Err(e @ NlError::NoData(_)) => {
            assert_eq!(e.message(), "No data available for subject bare")
        }
        other => panic!("expected no data, got {:?}", other),
    }
}

#[test]
fn context_goes_to_the_model() {
    let snapshot = sales();
    let pending = begin("how many orders", "sales", &snapshot).unwrap();
    assert_eq!(pending.stage(), NlStage::ContextBuilt);
    assert_eq!(pending.question, "how many orders");
    assert_eq!(pending.subject, "sales");
    assert_eq!(pending.context, snapshot.to_context_document("sales"));
}

#[test]
fn failed_statement_falls_back_once() {
    let snapshot = sales();
    let pending = begin("q", "sales", &snapshot).unwrap();
    let execution = pending
        .generated(Ok("SELECT nothing FROM nowhere".to_string()), &snapshot)
        .unwrap();
    assert!(!execution.fallback);
    assert_eq!(execution.stage(), NlStage::SqlQualified);
    assert_eq!(execution.sql_used, "SELECT nothing FROM nowhere;");
    let verdict = execution.executed(Err("Catalog Error: no table".to_string()), &snapshot);
    assert_eq!(verdict.stage(), NlStage::FallbackAttempted);
    let retry = match verdict {
        Verdict::Retry(p) => p,
        other => panic!("expected a retry, got {:?}", other),
    };
    assert!(retry.fallback);
    assert_eq!(retry.sql_used, "SELECT COUNT(*) FROM \"sales\".\"orders\";");
    let last = retry.executed(Err("fallback failed too".to_string()), &snapshot);
    assert_eq!(last.stage(), NlStage::Failed);
    match last {
        Verdict::Fail(e @ NlError::Execution(_)) => {
            assert_eq!(e.message(), "Catalog Error: no table")
        }
        other => panic!("expected the first error, got {:?}", other),
    }
}

#[test]
fn failed_statement_without_fallback_table_fails() {
    let snapshot = sales();
    let pending = begin("q", "hr", &snapshot).unwrap();
    let execution = pending.generated(Ok("SELECT 1 FROM people".to_string()), &snapshot).unwrap();
    assert_eq!(execution.sql_used, "SELECT 1 FROM \"hr\".\"people\";");
    match execution.executed(Err("nope".to_string()), &snapshot) {
        Verdict::Fail(NlError::Execution(m)) => assert_eq!(m, "nope"),
        other => panic!("expected a failure, got {:?}", other),
    }
}

#[test]
fn fallback_statement_uses_first_conventional_table() {
    let snapshot = sales();
    assert_eq!(
        fallback_statement(&snapshot, "sales"),
        Some("SELECT COUNT(*) FROM \"sales\".\"orders\";".to_string())
    );
    assert_eq!(fallback_statement(&snapshot, "hr"), None);
    assert_eq!(fallback_statement(&snapshot, "nobody"), None);
    let mut other = SchemaSnapshot::new(0);
    assert!(other
        .insert_subject(
            "shop",
            vec![TableEntry::new("Sales", vec![]), TableEntry::new("PRODUCTS", vec![])]
        )
        .is_ok());
    assert_eq!(
        fallback_statement(&other, "shop"),
        Some("SELECT COUNT(*) FROM \"shop\".\"PRODUCTS\";".to_string())
    );
}
