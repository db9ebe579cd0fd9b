use fts_loader::{ImportError, RecordEvent, import_delimited, load_records, prepare_record};

fn mem_conn() -> rusqlite::Connection {
    rusqlite::Connection::open_in_memory().unwrap()
}

fn count_where(conn: &rusqlite::Connection, cond: &str) -> i64 {
    let sql = format!("SELECT count(*) FROM contacts WHERE {}", cond);
    conn.query_row(&sql, [], |row| row.get(0)).unwrap()
}

fn strings(v: &[&str]) -> Vec<String> {
    v.iter().map(|s| s.to_string()).collect()
}

#[test]
fn end_to_end_scenario() {
    let conn = mem_conn();
    let data = b"id,name\n1,Alice\n2,Bob\n,bad,extra\n";
    let stats = import_delimited(&conn, data.as_slice(), 100000).unwrap();
    assert_eq!(stats.delimiter, b',');
    assert_eq!(stats.columns, 2);
    // Alice, Bob, and the truncated third record are all attempted
    assert_eq!(stats.attempted, 3);
    assert!(stats.skipped.is_empty());
    assert_eq!(count_where(&conn, "id = '1' AND name = 'Alice'"), 1);
    assert_eq!(count_where(&conn, "id = '2' AND name = 'Bob'"), 1);
    // the three-field record is cut down to ("", "bad")
    assert_eq!(count_where(&conn, "id = '' AND name = 'bad'"), 1);
    assert_eq!(count_where(&conn, "1 = 1"), 3);
}

#[test]
fn creation_is_idempotent_across_runs() {
    let conn = mem_conn();
    let data = b"id,name\n1,Alice\n";
    let first = import_delimited(&conn, data.as_slice(), 100000).unwrap();
    assert_eq!(first.attempted, 1);
    // a second run against the existing table must not error on creation
    let second = import_delimited(&conn, data.as_slice(), 100000).unwrap();
    assert_eq!(second.attempted, 1);
    assert_eq!(count_where(&conn, "id = '1'"), 2);
}

#[test]
fn parse_failures_are_skipped_and_not_counted() {
    let conn = mem_conn();
    let mut data = b"id,name\n1,Alice\n".to_vec();
    data.extend_from_slice(&[0xFF, 0xFE]);
    data.extend_from_slice(b",x\n2,Bob\n");
    let stats = import_delimited(&conn, &data, 100000).unwrap();
    // the row with invalid UTF-8 fails to parse and is skipped, with one
    // diagnostic carried back
    assert_eq!(stats.attempted, 2);
    assert_eq!(stats.skipped.len(), 1);
    assert_eq!(count_where(&conn, "id = '1' AND name = 'Alice'"), 1);
    assert_eq!(count_where(&conn, "id = '2' AND name = 'Bob'"), 1);
}

#[test]
fn fields_are_trimmed_on_the_way_in() {
    let conn = mem_conn();
    let data = b"id,name\n 1 ,\tAlice \n";
    let stats = import_delimited(&conn, data.as_slice(), 100000).unwrap();
    assert_eq!(stats.attempted, 1);
    assert_eq!(count_where(&conn, "id = '1' AND name = 'Alice'"), 1);
}

#[test]
fn semicolon_input_is_sniffed_and_split() {
    let conn = mem_conn();
    let data = b"id;name\n1;Alice\n2;Bob\n";
    let stats = import_delimited(&conn, data.as_slice(), 100000).unwrap();
    assert_eq!(stats.delimiter, b';');
    assert_eq!(stats.attempted, 2);
    assert_eq!(count_where(&conn, "name = 'Bob'"), 1);
}

#[test]
fn small_batches_commit_and_continue() {
    let conn = mem_conn();
    let data = b"id,name\n1,a\n2,b\n3,c\n";
    let stats = import_delimited(&conn, data.as_slice(), 1).unwrap();
    assert_eq!(stats.attempted, 3);
    assert_eq!(stats.confirmed, 3);
    assert_eq!(count_where(&conn, "1 = 1"), 3);
}

#[test]
fn header_with_odd_names_gets_positional_columns() {
    let conn = mem_conn();
    let data = b"id, ,e mail\n1,dropped,a@b\n";
    let stats = import_delimited(&conn, data.as_slice(), 100000).unwrap();
    // the empty header field is dropped, "e mail" becomes col3
    assert_eq!(stats.columns, 2);
    assert_eq!(count_where(&conn, "id = '1' AND col3 = 'dropped'"), 1);
}

#[test]
fn unreadable_header_row_aborts_the_run() {
    let conn = mem_conn();
    let mut data = vec![0xFF, 0xFE];
    data.extend_from_slice(b"\n1,Alice\n");
    let err = import_delimited(&conn, &data, 100000).unwrap_err();
    assert!(matches!(err, ImportError::Header(_)));
    assert!(err.describe().starts_with("header row: "));
}

#[test]
fn refused_create_statement_aborts_the_run() {
    let conn = mem_conn();
    // every header field is empty, so the table would have no columns
    let data = b" \n1\n";
    let err = import_delimited(&conn, data.as_slice(), 100000).unwrap_err();
    assert!(matches!(err, ImportError::Database(_)));
    assert!(err.describe().starts_with("database: "));
}

#[test]
fn loader_skips_failures_and_empty_records() {
    let conn = mem_conn();
    conn.execute(
        "CREATE VIRTUAL TABLE IF NOT EXISTS contacts USING fts5(a, b);",
        [],
    )
    .unwrap();
    let events = vec![
        RecordEvent::Parsed(Vec::new()),
        RecordEvent::Failed("malformed".to_string()),
        RecordEvent::Parsed(strings(&["1", "2"])),
    ];
    let counts = load_records(
        &conn,
        &events,
        "INSERT INTO contacts (a, b) VALUES (?, ?);",
        2,
        100000,
    )
    .unwrap();
    assert_eq!(counts.attempted, 1);
    assert_eq!(counts.confirmed, 1);
    assert_eq!(counts.skipped, strings(&["malformed"]));
    assert_eq!(count_where(&conn, "a = '1' AND b = '2'"), 1);
}

#[test]
fn short_record_is_attempted_but_dropped_by_the_store() {
    let conn = mem_conn();
    conn.execute(
        "CREATE VIRTUAL TABLE IF NOT EXISTS contacts USING fts5(a, b, c);",
        [],
    )
    .unwrap();
    // two values for three placeholders: the insert fails, the run goes on
    let events = vec![
        RecordEvent::Parsed(strings(&["1", "2"])),
        RecordEvent::Parsed(strings(&["x", "y", "z"])),
    ];
    let counts = load_records(
        &conn,
        &events,
        "INSERT INTO contacts (a, b, c) VALUES (?, ?, ?);",
        3,
        100000,
    )
    .unwrap();
    assert_eq!(counts.attempted, 2);
    assert_eq!(counts.confirmed, 1);
    assert_eq!(count_where(&conn, "1 = 1"), 1);
    assert_eq!(count_where(&conn, "a = 'x'"), 1);
}

#[test]
fn long_record_is_truncated_to_the_column_count() {
    let fields = strings(&[" 1 ", "Alice", "extra", "more"]);
    let values = prepare_record(&fields, 2).unwrap();
    assert_eq!(values, strings(&["1", "Alice"]));
}

#[test]
fn empty_record_is_skipped_before_insertion() {
    assert!(prepare_record(&Vec::new(), 3).is_none());
}
