use nl_cube::extract::{extract_sql, test_degenerate, GeneratedSqlCandidate};

#[test]
fn extraction_prefers_the_tagged_block() {
    assert_eq!(extract_sql("Sure!\n```sql\nSELECT 1\n```"), "SELECT 1");
    assert_eq!(
        extract_sql("```\nignored\n```\n```sql\n  SELECT 2;  \n```"),
        "SELECT 2;"
    );
}

#[test]
fn tagged_block_ends_at_its_own_fence() {
    assert_eq!(
        extract_sql("```sql\nSELECT 1\n```\nNote:\n```\nx\n```"),
        "SELECT 1"
    );
    assert_eq!(
        extract_sql("a ```sql SELECT 1 ``` b ```sql SELECT 2 ``` c"),
        "SELECT 1"
    );
    assert_eq!(extract_sql("```sql```"), "");
}

#[test]
fn extraction_falls_back_to_any_fence() {
    assert_eq!(extract_sql("Here:\n```\nSELECT 3\n```\nbye"), "SELECT 3");
    assert_eq!(extract_sql("```a``` and ```b```"), "a");
}

#[test]
fn extraction_scans_lines_without_fences() {
    assert_eq!(extract_sql("SELECT 1 FROM orders;"), "SELECT 1 FROM orders;");
    assert_eq!(
        extract_sql("The query is:\n  select a,\n  b\nfrom t;\nThanks"),
        "select a, b from t;"
    );
    assert_eq!(extract_sql("SELECT 1;\nThat is all."), "SELECT 1;");
    assert_eq!(extract_sql("with x as (select 1)\nselect * from x\n"), "with x as (select 1) select * from x");
    assert_eq!(extract_sql("```sql\nSELECT 1"), "SELECT 1");
    assert_eq!(extract_sql("SELECT 1\n```\nnot this"), "SELECT 1");
}

#[test]
fn extraction_returns_other_text_verbatim() {
    assert_eq!(extract_sql("I do not know."), "I do not know.");
    assert_eq!(extract_sql("-- no idea"), "-- no idea");
    assert_eq!(extract_sql(""), "");
}

#[test]
fn extraction_failures_are_recognised() {
    assert!(test_degenerate(&extract_sql("-- no idea")));
    assert!(test_degenerate(""));
    assert!(test_degenerate("  \n\t "));
    assert!(test_degenerate("-- a\n\n  -- b"));
    assert!(!test_degenerate("SELECT 1"));
    assert!(!test_degenerate("-- a\nSELECT 1"));
    assert!(!test_degenerate("- not a comment"));
}

#[test]
fn candidate_carries_question_answer_and_sql() {
    let c = GeneratedSqlCandidate::new("how many", "```sql\nSELECT COUNT(*) FROM orders\n```");
    assert_eq!(c.question, "how many");
    assert_eq!(c.raw_model_text, "```sql\nSELECT COUNT(*) FROM orders\n```");
    assert_eq!(c.extracted_sql, "SELECT COUNT(*) FROM orders");
    assert!(!c.is_failure());
    assert!(GeneratedSqlCandidate::new("q", "```sql\n-- nothing\n```").is_failure());
}
