use nl_cube::config::LlmConfig;
use nl_cube::llm::{
    build_ollama_prompt, build_plain_prompt, sql_of_ollama_answer, sql_of_remote_answer,
    LlmBackend, LlmError, LlmManager, LocalLlmProvider, NlQuery, QueryHistoryItem, SavedQuery,
    SqlGenerationInput, SqlGenerationOutput, SqlGenerator,
};

fn config(backend: &str, key: Option<&str>, url: Option<&str>) -> LlmConfig {
    LlmConfig {
        backend: backend.to_string(),
        model: "sqlcoder".to_string(),
        api_key: key.map(|s| s.to_string()),
        api_url: url.map(|s| s.to_string()),
    }
}

#[test]
fn manager_selects_remote_backend() {
    let manager = LlmManager::new(&config("remote", Some("k"), Some("http://x/v1"))).unwrap();
    match manager.backend() {
        LlmBackend::Remote(s) => {
            assert_eq!(s.api_url, "http://x/v1");
            assert_eq!(s.api_key, "k");
            assert_eq!(s.model, "sqlcoder");
        }
        other => panic!("expected the remote backend, got {:?}", other),
    }
}

#[test]
fn manager_requires_url_then_key_for_remote() {
    match LlmManager::new(&config("remote", Some("k"), None)) {
        Err(LlmError::ConfigError(m)) => {
            assert_eq!(m, "API URL is required for remote LLM provider")
        }
        other => panic!("expected a configuration error, got {:?}", other),
    }
    match LlmManager::new(&config("remote", None, None)) {
        Err(LlmError::ConfigError(m)) => {
            assert_eq!(m, "API URL is required for remote LLM provider")
        }
        other => panic!("expected a configuration error, got {:?}", other),
    }
    match LlmManager::new(&config("remote", None, Some("http://x"))) {
        Err(LlmError::ConfigError(m)) => {
            assert_eq!(m, "API key is required for remote LLM provider")
        }
        other => panic!("expected a configuration error, got {:?}", other),
    }
}

#[test]
fn manager_selects_ollama_with_default_url() {
    let manager = LlmManager::new(&config("ollama", None, None)).unwrap();
    match manager.backend() {
        LlmBackend::Ollama(s) => {
            assert_eq!(s.api_url, "http://localhost:11434/api/generate");
            assert_eq!(s.model, "sqlcoder");
        }
        other => panic!("expected ollama, got {:?}", other),
    }
    let manager = LlmManager::new(&config("ollama", None, Some("http://o:1/api"))).unwrap();
    match manager.backend() {
        LlmBackend::Ollama(s) => assert_eq!(s.api_url, "http://o:1/api"),
        other => panic!("expected ollama, got {:?}", other),
    }
}

#[test]
fn manager_refuses_other_backends() {
    for name in ["local", "", "Remote", "openai"] {
        match LlmManager::new(&config(name, Some("k"), Some("u"))) {
            Err(e @ LlmError::ConfigError(_)) => assert_eq!(
                e.message(),
                format!("LLM configuration error: Unsupported LLM backend: {}", name)
            ),
            other => panic!("expected a configuration error, got {:?}", other),
        }
    }
}

#[test]
fn error_messages_name_their_kind() {
    assert_eq!(
        LlmError::ConnectionError("a".to_string()).message(),
        "LLM connection error: a"
    );
    assert_eq!(LlmError::ResponseError("b".to_string()).message(), "LLM response error: b");
    assert_eq!(LlmError::ConfigError("c".to_string()).message(), "LLM configuration error: c");
    assert!(matches!(
        LlmError::ResponseError("b".to_string()).duplicate(),
        LlmError::ResponseError(m) if m == "b"
    ));
}

#[test]
fn plain_prompt_has_the_fixed_wording() {
    let expected = format!(
        r#"
### Instructions:
Your task is to convert a question into a SQL query, given a database schema.
Adhere to these rules:
- **Deliberately go through the question and database schema word by word** to appropriately answer the question
- **Use Table Aliases** to prevent ambiguity. For example, `SELECT table1.col1, table2.col1 FROM table1 JOIN table2 ON table1.id = table2.id`.
- When creating a ratio, always cast the numerator as float

### Input:
Generate a SQL query that answers the question `{}`.
This query will run on a database whose schema is represented in this string:
{}

### Response:
Based on your instructions, here is the SQL query I have generated to answer the question `{}`:
```sql
"#,
        "how many?", "## Database: x\n", "how many?"
    );
    assert_eq!(build_plain_prompt("how many?", "## Database: x\n"), expected);
    let local = LocalLlmProvider::new(&config("local", None, None)).unwrap();
    assert_eq!(local.model_path(), "sqlcoder");
    assert_eq!(local.prepare_prompt("how many?", "## Database: x\n"), expected);
    let remote = LlmManager::new(&config("remote", Some("k"), Some("u"))).unwrap();
    assert_eq!(remote.prepare_prompt("how many?", "## Database: x\n"), expected);
}

#[test]
fn ollama_prompt_has_the_fixed_wording() {
    let expected = format!(
        r#"
### Instructions:
Your task is to convert a question into a SQL query for DuckDB, given a database schema.
Adhere to these rules:
- **Be careful with column names - they are case sensitive**
- **Use the exact spelling of column names as provided in the schema**
- **Deliberately go through the question and database schema word by word** to appropriately answer the question
- **Use Table Aliases** to prevent ambiguity. For example, `SELECT table1.col1, table2.col1 FROM table1 JOIN table2 ON table1.id = table2.id`.
- When creating a ratio, always cast the numerator as float

### Input:
Generate a SQL query that answers the question `{}`.
This query will run on a DuckDB database with the following tables and columns:

{}

### Expected SQL Format:
- Use lowercase for SQL keywords (SELECT, FROM, WHERE, etc.)
- Reference column names exactly as shown in the schema
- Make sure to use double quotes around column names with spaces or special characters
- End your query with a semicolon

### Response:
Based on your instructions, here is the SQL query I have generated to answer the question `{}`:
```sql
"#,
        "q", "s", "q"
    );
    assert_eq!(build_ollama_prompt("q", "s"), expected);
    let ollama = LlmManager::new(&config("ollama", None, None)).unwrap();
    assert_eq!(ollama.prepare_prompt("q", "s"), expected);
}

#[test]
fn local_provider_is_not_implemented() {
    let local = LocalLlmProvider::new(&config("local", None, None)).unwrap();
    match local.generate_sql("q", "s") {
        Err(LlmError::ConfigError(m)) => assert_eq!(m, "Local LLM provider not fully implemented"),
        other => panic!("expected a configuration error, got {:?}", other),
    }
}

#[test]
fn remote_answer_is_unwrapped_from_its_block() {
    assert_eq!(sql_of_remote_answer("x ```sql\n SELECT 1 \n``` y"), "SELECT 1");
    assert_eq!(sql_of_remote_answer("SELECT 2"), "SELECT 2");
    assert_eq!(sql_of_remote_answer("```sql SELECT 3"), "```sql SELECT 3");
    assert_eq!(sql_of_remote_answer("```\nSELECT 4\n```"), "```\nSELECT 4\n```");
    assert_eq!(
        sql_of_remote_answer("```sql\nSELECT 6\n```\nNote:\n```\nx\n```"),
        "SELECT 6"
    );
    let remote = LlmManager::new(&config("remote", Some("k"), Some("u"))).unwrap();
    assert_eq!(remote.sql_from_answer("```sql\nSELECT 5\n```").unwrap(), "SELECT 5");
}

#[test]
fn ollama_answer_must_hold_sql() {
    assert_eq!(sql_of_ollama_answer("```\nSELECT 1\n```").unwrap(), "SELECT 1");
    assert_eq!(
        sql_of_ollama_answer("-- count them\nSELECT 1;").unwrap(),
        "SELECT 1;"
    );
    for empty in [
        "",
        "  \n ",
        "```sql\n\n```",
        "```\n```",
        "-- no idea",
        "-- note",
        "```sql\n-- nothing\n  -- at all\n```",
    ] {
        match sql_of_ollama_answer(empty) {
            Err(LlmError::ResponseError(m)) => {
                assert_eq!(m, "Failed to extract valid SQL from response")
            }
            other => panic!("expected a response error, got {:?}", other),
        }
    }
    let ollama = LlmManager::new(&config("ollama", None, None)).unwrap();
    assert_eq!(ollama.sql_from_answer("SELECT 1;\nbye").unwrap(), "SELECT 1;");
    assert!(ollama.sql_from_answer(" ").is_err());
}

#[test]
fn generation_records_hold_plain_text() {
    let input = SqlGenerationInput { question: "q".to_string(), schema: "s".to_string() };
    let output = SqlGenerationOutput { sql: "SELECT 1".to_string(), explanation: None };
    assert_eq!(input.question, "q");
    assert_eq!(input.schema, "s");
    assert_eq!(output.sql, "SELECT 1");
    assert!(output.explanation.is_none());
    let asked = NlQuery {
        question: "q".to_string(),
        generated_sql: Some("SELECT 1".to_string()),
        error: None,
        created_at: 10,
    };
    let saved = SavedQuery {
        id: "1".to_string(),
        name: "n".to_string(),
        question: "q".to_string(),
        sql: "SELECT 1".to_string(),
        created_at: 10,
        updated_at: 11,
    };
    let run = QueryHistoryItem {
        question: "q".to_string(),
        sql: "SELECT 1".to_string(),
        execution_time_ms: 5,
        row_count: 1,
        timestamp: 12,
    };
    assert_eq!((asked.created_at, asked.error.is_none()), (10, true));
    assert_eq!(asked.generated_sql.as_deref(), Some("SELECT 1"));
    assert_eq!((saved.id.as_str(), saved.name.as_str(), saved.updated_at), ("1", "n", 11));
    assert_eq!((saved.question.as_str(), saved.sql.as_str(), saved.created_at), ("q", "SELECT 1", 10));
    assert_eq!((run.execution_time_ms, run.row_count, run.timestamp), (5, 1, 12));
    assert_eq!((run.question.as_str(), run.sql.as_str()), ("q", "SELECT 1"));
}
