use nl_cube::catalog::{
    test_subject_name, CatalogError, ColumnDescriptor, SchemaSnapshot, TableEntry,
};
use nl_cube::distance::{compute_edit_distance, compute_typo_threshold};
use nl_cube::qualifier::{qualify, qualify_statement};

fn chars(s: &str) -> Vec<char> {
    s.chars().collect()
}

fn sales_snapshot() -> SchemaSnapshot {
    let mut snapshot = SchemaSnapshot::new(1_700_000_000);
    let orders = TableEntry::new(
        "orders",
        vec![
            ColumnDescriptor::new("order_id", "INTEGER", false),
            ColumnDescriptor::new("customer_id", "INTEGER", true),
            ColumnDescriptor::new("total_amount", "DOUBLE", true),
        ],
    );
    let customers = TableEntry::new(
        "customers",
        vec![
            ColumnDescriptor::new("customer_id", "INTEGER", false),
            ColumnDescriptor::new("FullName", "VARCHAR", true),
        ],
    );
    assert_eq!(snapshot.insert_subject("sales", vec![orders, customers]), Ok(()));
    snapshot
}

fn cased_snapshot() -> SchemaSnapshot {
    let mut snapshot = SchemaSnapshot::new(0);
    let t = TableEntry::new("t", vec![ColumnDescriptor::new("OrderId", "INTEGER", false)]);
    assert_eq!(snapshot.insert_subject("x", vec![t]), Ok(()));
    snapshot
}

#[test]
fn edit_distance_of_known_pairs() {
    assert_eq!(compute_edit_distance(&chars("kitten"), &chars("sitting")), 3);
    assert_eq!(compute_edit_distance(&chars(""), &chars("abc")), 3);
    assert_eq!(compute_edit_distance(&chars("abc"), &chars("")), 3);
    assert_eq!(compute_edit_distance(&chars("abc"), &chars("abc")), 0);
    assert_eq!(compute_edit_distance(&chars("custmer_id"), &chars("customer_id")), 1);
    assert_eq!(compute_edit_distance(&chars("id"), &chars("customer_id")), 9);
    assert_eq!(compute_edit_distance(&chars("flaw"), &chars("lawn")), 2);
}

#[test]
fn typo_threshold_depends_on_token_length() {
    assert_eq!(compute_typo_threshold(&chars("abcdef")), 2);
    assert_eq!(compute_typo_threshold(&chars("abcdefg")), 3);
    assert_eq!(compute_typo_threshold(&chars("")), 2);
}

#[test]
fn qualify_unknown_subject_is_a_no_op() {
    let snapshot = sales_snapshot();
    let sql = "select custmer_id from orders  ";
    assert_eq!(qualify(sql, "nonexistent", &snapshot), sql);
    assert_eq!(qualify("", "nonexistent", &snapshot), "");
}

#[test]
fn qualify_rewrites_bare_table_after_from() {
    let snapshot = sales_snapshot();
    assert_eq!(
        qualify("SELECT COUNT(*) FROM orders", "sales", &snapshot),
        "SELECT COUNT(*) FROM \"sales\".\"orders\";"
    );
}

#[test]
fn qualify_rewrites_tables_after_each_clause_word() {
    let snapshot = sales_snapshot();
    assert_eq!(
        qualify(
            "SELECT * FROM orders JOIN Customers ON 1 = 1",
            "sales",
            &snapshot
        ),
        "SELECT * FROM \"sales\".\"orders\" JOIN \"sales\".\"customers\" ON 1 = 1;"
    );
    assert_eq!(
        qualify("UPDATE orders SET total_amount = 1", "sales", &snapshot),
        "UPDATE \"sales\".\"orders\" SET total_amount = 1;"
    );
    assert_eq!(
        qualify("INSERT INTO orders VALUES (1, 2, 3)", "sales", &snapshot),
        "INSERT INTO \"sales\".\"orders\" VALUES (1, 2, 3);"
    );
    assert_eq!(
        qualify("DELETE FROM orders WHERE order_id = 1", "sales", &snapshot),
        "DELETE FROM \"sales\".\"orders\" WHERE order_id = 1;"
    );
}

#[test]
fn qualify_leaves_qualified_and_partial_names_alone() {
    let snapshot = sales_snapshot();
    assert_eq!(
        qualify("SELECT * FROM \"sales\".\"orders\";", "sales", &snapshot),
        "SELECT * FROM \"sales\".\"orders\";"
    );
    assert_eq!(
        qualify("SELECT * FROM sales.orders", "sales", &snapshot),
        "SELECT * FROM sales.orders;"
    );
    assert_eq!(
        qualify("SELECT * FROM orders_archive_2020", "sales", &snapshot),
        "SELECT * FROM orders_archive_2020;"
    );
}

#[test]
fn qualify_corrects_letter_case_exactly() {
    let snapshot = cased_snapshot();
    let out = qualify("SELECT orderid FROM t", "x", &snapshot);
    assert!(out.contains("OrderId"));
    assert!(!out.contains("orderid"));
    assert_eq!(out, "SELECT OrderId FROM \"x\".\"t\";");
}

#[test]
fn qualify_corrects_near_misses_only() {
    let snapshot = sales_snapshot();
    assert_eq!(
        qualify("SELECT custmer_id FROM orders", "sales", &snapshot),
        "SELECT customer_id FROM \"sales\".\"orders\";"
    );
    let mut far = SchemaSnapshot::new(0);
    let t = TableEntry::new("orders", vec![ColumnDescriptor::new("customer_id", "INTEGER", true)]);
    assert_eq!(far.insert_subject("sales", vec![t]), Ok(()));
    assert_eq!(
        qualify("SELECT id FROM orders", "sales", &far),
        "SELECT id FROM \"sales\".\"orders\";"
    );
    assert_eq!(
        qualify("SELECT custmer_id FROM orders", "sales", &far),
        "SELECT customer_id FROM \"sales\".\"orders\";"
    );
}

#[test]
fn qualify_never_touches_keywords_quotes_or_numbers() {
    let snapshot = sales_snapshot();
    assert_eq!(
        qualify(
            "select 'custmer_id', \"custmer_id\", 10 from orders where total_amount > 100",
            "sales",
            &snapshot
        ),
        "select 'custmer_id', \"custmer_id\", 10 from \"sales\".\"orders\" where total_amount > 100;"
    );
}

#[test]
fn qualify_ends_in_one_semicolon() {
    let snapshot = sales_snapshot();
    assert_eq!(qualify("SELECT 1", "sales", &snapshot), "SELECT 1;");
    assert_eq!(qualify("SELECT 1;", "sales", &snapshot), "SELECT 1;");
    assert_eq!(qualify("SELECT 1 ;; \n", "sales", &snapshot), "SELECT 1;");
    assert_eq!(qualify("", "sales", &snapshot), ";");
}

#[test]
fn qualify_is_idempotent_on_samples() {
    let snapshot = sales_snapshot();
    let samples = [
        "SELECT COUNT(*) FROM orders",
        "select custmer_id, fullname from Orders o join customers c on o.customer_id = c.customer_id;;",
        "INSERT INTO orders VALUES (1, 'a;b', \"x",
        "\" FROM orders",
        "UPDATE orders SET totl_amount = 1 WHERE ordr_id = 2  ",
        "",
        ";",
    ];
    for sql in samples {
        let once = qualify(sql, "sales", &snapshot);
        let twice = qualify(&once, "sales", &snapshot);
        assert_eq!(once, twice);
    }
}

#[test]
fn qualify_statement_keeps_the_original() {
    let snapshot = sales_snapshot();
    let q = qualify_statement("SELECT 1 FROM orders", "sales", &snapshot);
    assert_eq!(q.original_sql, "SELECT 1 FROM orders");
    assert_eq!(q.rewritten_sql, "SELECT 1 FROM \"sales\".\"orders\";");
    assert_eq!(q.target_subject, "sales");
}

#[test]
fn snapshot_rejects_bad_subjects() {
    let mut snapshot = sales_snapshot();
    for name in ["no good", "a\"b", "a-b", "a.b"] {
        assert_eq!(snapshot.insert_subject(name, vec![]), Err(CatalogError::InvalidSubjectName));
    }
    assert_eq!(snapshot.insert_subject("sales", vec![]), Err(CatalogError::DuplicateSubject));
    let twice = vec![TableEntry::new("a", vec![]), TableEntry::new("a", vec![])];
    assert_eq!(snapshot.insert_subject("other", twice), Err(CatalogError::DuplicateTable));
    assert_eq!(snapshot.subject_count(), 1);
    assert_eq!(snapshot.insert_subject("other_1", vec![]), Ok(()));
    assert_eq!(snapshot.insert_subject("données", vec![]), Ok(()));
    assert_eq!(snapshot.insert_subject("", vec![]), Ok(()));
    assert_eq!(snapshot.insert_subject("", vec![]), Err(CatalogError::DuplicateSubject));
    assert_eq!(snapshot.subject_count(), 4);
}

#[test]
fn subject_names_are_alphanumeric_with_underscores() {
    for name in ["sales", "Sales_2024", "données", "日本語", "_", "42", ""] {
        assert!(test_subject_name(name), "{:?}", name);
    }
    for name in ["no good", "a-b", "a.b", "a/b", "a\"b", " "] {
        assert!(!test_subject_name(name), "{:?}", name);
    }
}

#[test]
fn qualify_takes_any_valid_subject_name() {
    let mut snapshot = SchemaSnapshot::new(0);
    let t = || TableEntry::new("orders", vec![ColumnDescriptor::new("order_id", "INTEGER", false)]);
    assert_eq!(snapshot.insert_subject("données", vec![t()]), Ok(()));
    assert_eq!(snapshot.insert_subject("", vec![t()]), Ok(()));
    let once = qualify("select ordr_id from orders", "données", &snapshot);
    assert_eq!(once, "select order_id from \"données\".\"orders\";");
    assert_eq!(qualify(&once, "données", &snapshot), once);
    let once = qualify("select 1 from orders", "", &snapshot);
    assert_eq!(once, "select 1 from \"\".\"orders\";");
    assert_eq!(qualify(&once, "", &snapshot), once);
}

#[test]
fn qualify_is_idempotent_on_generated_text() {
    let snapshot = sales_snapshot();
    let pieces = [
        "select", "FROM", "from", "join", "update", "insert", "into", "orders", "Customers",
        "custmer_id", "order_id", "ordr_id", "fullname", "total_amount", "o", "x1", "42", " ",
        "  ", "\n", "\t", ".", ",", ";", "(", ")", "*", "=", "'", "\"", "-", "é", "sales",
    ];
    let mut seed: u64 = 0x2545_f491_4f6c_dd1d;
    for _ in 0..400 {
        let mut sql = String::new();
        seed ^= seed << 13;
        seed ^= seed >> 7;
        seed ^= seed << 17;
        let length = (seed % 12) as usize;
        for _ in 0..length {
            seed ^= seed << 13;
            seed ^= seed >> 7;
            seed ^= seed << 17;
            sql.push_str(pieces[(seed % pieces.len() as u64) as usize]);
        }
        let once = qualify(&sql, "sales", &snapshot);
        let twice = qualify(&once, "sales", &snapshot);
        assert_eq!(once, twice, "for {:?}", sql);
        assert!(once.ends_with(';'));
    }
}

#[test]
fn qualify_resolves_columns_behind_aliases() {
    let snapshot = sales_snapshot();
    assert_eq!(
        qualify(
            "SELECT ord.ORDER_ID, c.fullname FROM orders ord JOIN customers c ON ord.customer_id = c.customer_id",
            "sales",
            &snapshot
        ),
        "SELECT ord.order_id, c.FullName FROM \"sales\".\"orders\" ord JOIN \"sales\".\"customers\" c ON ord.customer_id = c.customer_id;"
    );
}

#[test]
fn qualify_leaves_known_names_and_far_tokens_alone() {
    let snapshot = sales_snapshot();
    assert_eq!(
        qualify("SELECT orders.order_id, sales.x, whatever FROM t", "sales", &snapshot),
        "SELECT orders.order_id, sales.x, whatever FROM t;"
    );
}
