use helixdb::helix_engine::types::GraphError;
use helixdb::ingestion_engine::sqlite::{
    check_node_ids, count_query, edge_batch_is_due, edge_ends, edge_type_name, edges_url,
    failed_request, failed_send, foreign_key_query, instance_or_default, join_query,
    missing_mapping, node_batch_is_due, node_id, nodes_url, primary_key_of_row, primary_key_text,
    record_node_ids, rows_query, table_info_query, tables_query, ColumnInfo, ForeignKey,
    IngestionError, TableSchema, Value,
};

fn text(s: &str) -> String {
    s.to_string()
}

fn posts() -> TableSchema {
    TableSchema::new(
        text("posts"),
        vec![
            ColumnInfo::new(text("id"), text("INTEGER"), 1),
            ColumnInfo::new(text("author"), text("TEXT"), 0),
        ],
        vec![ForeignKey {
            from_table: text("posts"),
            from_column: text("author"),
            to_table: text("users"),
            to_column: text("id"),
        }],
    )
}

fn mapping_error(result: Result<String, IngestionError>) -> String {
    match result {
        Err(IngestionError::MappingError(detail)) => detail,
        other => panic!("unexpected {:?}", other),
    }
}

#[test]
fn a_table_reads_as_its_sections() {
    let expected = "Table: posts\n\
----------------------------------------\n\
Columns:\n  1. id (INTEGER (Primary Key))\n  2. author (TEXT)\n\n\
Primary Keys:\n  - id\n\n\
Foreign Keys:\n  1. posts.author → users.id\n\
----------------------------------------\n";
    assert_eq!(posts().to_text(), expected);
    let bare = TableSchema::new(text("t"), vec![], vec![]);
    let expected = "Table: t\n\
----------------------------------------\n\
Columns:\n  None\n\n\
Primary Keys:\n  None\n\n\
Foreign Keys:\n  None\n\
----------------------------------------\n";
    assert_eq!(bare.to_text(), expected);
}

#[test]
fn the_primary_key_is_made_of_the_columns_that_say_so() {
    let table = TableSchema::new(
        text("t"),
        vec![
            ColumnInfo::new(text("a"), text("TEXT"), 2),
            ColumnInfo::new(text("b"), text("TEXT"), 0),
            ColumnInfo::new(text("c"), text("TEXT"), 1),
            ColumnInfo::new(text("d"), text("TEXT"), -1),
        ],
        vec![],
    );
    assert_eq!(table.primary_keys, vec![text("a"), text("c")]);
    assert_eq!(table.columns[1].to_text(), "b (TEXT)");
    assert_eq!(table.columns[2].to_text(), "c (TEXT (Primary Key))");
}

#[test]
fn statements_name_their_table() {
    assert_eq!(
        tables_query(),
        "SELECT name FROM sqlite_master WHERE type='table' AND name NOT LIKE 'sqlite_%'"
    );
    assert_eq!(table_info_query("posts"), "PRAGMA table_info(posts)");
    assert_eq!(foreign_key_query("posts"), "PRAGMA foreign_key_list(posts)");
    assert_eq!(count_query("posts"), "SELECT COUNT(*) FROM posts");
    assert_eq!(rows_query("posts"), "SELECT * FROM posts");
    let schema = posts();
    assert_eq!(
        join_query(&schema, &schema.foreign_keys[0]).unwrap(),
        "SELECT a.id, a.author FROM posts a JOIN users b ON a.author = b.id"
    );
    let keyless = TableSchema::new(text("logs"), vec![], vec![]);
    assert_eq!(
        mapping_error(join_query(&keyless, &schema.foreign_keys[0])),
        "No primary key found for table logs"
    );
}

#[test]
fn addresses_end_in_their_route() {
    assert_eq!(instance_or_default(None), "http://localhost:6969");
    assert_eq!(instance_or_default(Some(text("http://db:1"))), "http://db:1");
    assert_eq!(nodes_url("http://db:1"), "http://db:1/ingestnodes");
    assert_eq!(edges_url("http://db:1"), "http://db:1/ingestedges");
}

#[test]
fn an_edge_type_is_in_upper_case() {
    assert_eq!(edge_type_name("posts", "users"), "POSTS_TO_USERS");
    assert_eq!(edge_type_name("Straße", "b"), "STRASSE_TO_B");
}

#[test]
fn a_primary_key_is_a_text_or_an_integer() {
    assert_eq!(primary_key_text("id", &Value::Text(text("abc"))).unwrap(), "abc");
    assert_eq!(primary_key_text("id", &Value::Integer(-12)).unwrap(), "-12");
    assert_eq!(
        primary_key_text("id", &Value::Integer(i64::MIN)).unwrap(),
        "-9223372036854775808"
    );
    assert_eq!(
        primary_key_text("id", &Value::Integer(i64::MAX)).unwrap(),
        "9223372036854775807"
    );
    for value in [Value::Null, Value::Real(0), Value::Blob(vec![1])] {
        assert_eq!(
            mapping_error(primary_key_text("id", &value)),
            "Unsupported primary key type for column id"
        );
    }
}

#[test]
fn the_key_of_a_row_is_read_from_its_key_columns() {
    let schema = posts();
    let row = vec![(text("id"), Value::Integer(7)), (text("author"), Value::Text(text("ada")))];
    assert_eq!(primary_key_of_row(&row, &schema).unwrap(), "7");
    let keyless = TableSchema::new(text("logs"), vec![], vec![]);
    assert_eq!(primary_key_of_row(&row, &keyless).unwrap(), "");
    let broken = vec![(text("id"), Value::Null), (text("author"), Value::Text(text("ada")))];
    assert_eq!(
        mapping_error(primary_key_of_row(&broken, &schema)),
        "Unsupported primary key type for column id"
    );
}

#[test]
fn batches_are_due_when_full_or_at_the_end() {
    assert!(node_batch_is_due(10, 5, 100));
    assert!(!node_batch_is_due(11, 5, 100));
    assert!(node_batch_is_due(11, 5, 11));
    assert!(node_batch_is_due(3, 1, 100));
    assert!(edge_batch_is_due(5, 5, 5, false));
    assert!(!edge_batch_is_due(4, 5, 4, false));
    assert!(edge_batch_is_due(4, 5, 4, true));
    assert!(!edge_batch_is_due(0, 5, 0, true));
}

#[test]
fn the_graph_answers_with_one_id_per_node() {
    assert!(check_node_ids(3, 3, "posts").is_ok());
    match check_node_ids(3, 2, "posts") {
        Err(IngestionError::HttpError(detail)) => {
            assert_eq!(detail, "Expected 3 node IDs for table posts, got 2")
        }
        other => panic!("unexpected {:?}", other),
    }
}

#[test]
fn keys_are_matched_with_the_ids_of_their_nodes() {
    let mut mapping: Vec<(String, u64)> = vec![];
    record_node_ids(&mut mapping, &vec![text("a"), text(""), text("b")], &vec![10, 11, 12]);
    record_node_ids(&mut mapping, &vec![text("a"), text("unmatched")], &vec![20]);
    assert_eq!(node_id(&mapping, &text("a")), Some(20));
    assert_eq!(node_id(&mapping, &text("b")), Some(12));
    assert_eq!(node_id(&mapping, &text("")), None);
    assert_eq!(node_id(&mapping, &text("c")), None);
    assert_eq!(node_id(&mapping, &text("unmatched")), None);
    let users: Vec<(String, u64)> = vec![(text("u1"), 1)];
    assert_eq!(edge_ends(&mapping, &users, &text("b"), &text("u1")), Some((12, 1)));
    assert_eq!(edge_ends(&mapping, &users, &text("b"), &text("u2")), None);
    assert_eq!(edge_ends(&mapping, &users, &text("z"), &text("u1")), None);
}

#[test]
fn failures_say_what_failed() {
    assert_eq!(missing_mapping("posts").message(), "No ID mappings found for table posts");
    assert_eq!(
        failed_request("http://db/ingestnodes", "500 Internal Server Error").message(),
        "Request to http://db/ingestnodes failed with status: 500 Internal Server Error"
    );
    assert_eq!(
        failed_send("nodes", "http://db/ingestnodes", "refused").message(),
        "Failed to send nodes to http://db/ingestnodes: refused"
    );
    assert_eq!(
        IngestionError::GraphError(GraphError::StorageError(text("full"))).message(),
        "full"
    );
    assert_eq!(GraphError::ConversionError(text("x")).message(), "x");
    assert_eq!(GraphError::DeserializationError(text("y")).message(), "y");
}

#[test]
fn a_database_error_keeps_its_report() {
    let error = IngestionError::from(rusqlite::Error::QueryReturnedNoRows);
    assert!(matches!(error, IngestionError::SqliteError(_)));
    assert_eq!(error.message(), rusqlite::Error::QueryReturnedNoRows.to_string());
    assert_eq!(error.message(), "Query returned no rows");
}
