use rusqlite::Connection;
use sql_bridge::bridge::{
    create_table, describe_table, list_tables, write_query, ColumnNames, QueryResult,
};
use sql_bridge::error::BridgeError;
use sql_bridge::guard::DbState;
use sql_bridge::record::{Field, Record};
use sql_bridge::schema::ColumnInfo;
use sql_bridge::value::Value;

fn text(s: &str) -> String {
    String::from(s)
}

/// Asks the engine for each name, as a host does.
struct EngineNames;

impl ColumnNames for EngineNames {
    fn column_name(&self, stmt: &rusqlite::Statement<'_>, index: usize) -> Option<String> {
        stmt.column_name(index).ok().map(String::from)
    }
}

/// Gives no name at all.
struct NoNames;

impl ColumnNames for NoNames {
    fn column_name(&self, _stmt: &rusqlite::Statement<'_>, _index: usize) -> Option<String> {
        None
    }
}

fn read_query(
    query: &str,
    parameters: Option<Vec<String>>,
    state: &DbState,
) -> Result<Vec<Record>, BridgeError> {
    sql_bridge::bridge::read_query(query, parameters, state, &EngineNames)
}

fn fresh() -> DbState {
    DbState::new(Connection::open_in_memory().unwrap())
}

fn field(name: &str, value: Value) -> Field {
    Field { name: text(name), value }
}

#[test]
fn scenario_create_insert_read_describe() {
    let state = fresh();
    assert_eq!(create_table("CREATE TABLE t (id INTEGER PRIMARY KEY, name TEXT)", &state), Ok(()));
    assert_eq!(
        write_query("INSERT INTO t (name) VALUES (?)", Some(vec![text("Alice")]), &state),
        Ok(QueryResult { rows: vec![], last_insert_rowid: Some(1), rows_affected: Some(1) })
    );
    assert_eq!(
        read_query("SELECT * FROM t", None, &state),
        Ok(vec![Record {
            fields: vec![field("id", Value::Integer(1)), field("name", Value::Text(text("Alice")))],
        }])
    );
    let columns = describe_table("t", &state).unwrap();
    assert_eq!(columns.len(), 2);
    assert_eq!(columns[0].name, "id");
    assert!(columns[0].pk);
    assert_eq!(columns[1].name, "name");
    assert!(!columns[1].pk);
}

#[test]
fn describe_reports_each_column() {
    let state = fresh();
    create_table(
        "CREATE TABLE person (id INTEGER PRIMARY KEY, name TEXT NOT NULL, age INT DEFAULT 18, note)",
        &state,
    )
    .unwrap();
    assert_eq!(
        describe_table("person", &state),
        Ok(vec![
            ColumnInfo {
                cid: 0,
                name: text("id"),
                decl_type: text("INTEGER"),
                notnull: false,
                dflt_value: None,
                pk: true,
            },
            ColumnInfo {
                cid: 1,
                name: text("name"),
                decl_type: text("TEXT"),
                notnull: true,
                dflt_value: None,
                pk: false,
            },
            ColumnInfo {
                cid: 2,
                name: text("age"),
                decl_type: text("INT"),
                notnull: false,
                dflt_value: Some(text("18")),
                pk: false,
            },
            ColumnInfo {
                cid: 3,
                name: text("note"),
                decl_type: text(""),
                notnull: false,
                dflt_value: None,
                pk: false,
            },
        ])
    );
}

#[test]
fn describe_of_a_missing_table_is_empty() {
    let state = fresh();
    assert_eq!(describe_table("nothing_here", &state), Ok(vec![]));
}

#[test]
fn describe_refuses_a_name_that_is_not_an_identifier() {
    let state = fresh();
    create_table("CREATE TABLE t (id INTEGER PRIMARY KEY)", &state).unwrap();
    assert_eq!(
        describe_table("t); DROP TABLE t; --", &state),
        Err(BridgeError::InvalidIdentifier(text("t); DROP TABLE t; --")))
    );
    assert_eq!(describe_table("", &state), Err(BridgeError::InvalidIdentifier(text(""))));
    assert_eq!(list_tables(&state), Ok(vec![text("t")]));
}

#[test]
fn new_table_is_listed_in_order() {
    let state = fresh();
    assert_eq!(list_tables(&state), Ok(vec![]));
    create_table("CREATE TABLE pears (id INTEGER)", &state).unwrap();
    assert_eq!(list_tables(&state), Ok(vec![text("pears")]));
    create_table("CREATE TABLE apples (id INTEGER)", &state).unwrap();
    assert_eq!(list_tables(&state), Ok(vec![text("apples"), text("pears")]));
    create_table("CREATE TABLE mangos (id INTEGER)", &state).unwrap();
    assert_eq!(list_tables(&state), Ok(vec![text("apples"), text("mangos"), text("pears")]));
}

#[test]
fn list_leaves_out_views_indexes_and_the_engines_own_tables() {
    let state = fresh();
    create_table("CREATE TABLE log (id INTEGER PRIMARY KEY AUTOINCREMENT, line TEXT)", &state)
        .unwrap();
    create_table("CREATE INDEX log_line ON log (line)", &state).unwrap();
    create_table("CREATE VIEW lines AS SELECT line FROM log", &state).unwrap();
    write_query("INSERT INTO log (line) VALUES (?)", Some(vec![text("x")]), &state).unwrap();
    let everything = read_query(
        "SELECT name FROM sqlite_master WHERE type = 'table' ORDER BY name",
        None,
        &state,
    )
    .unwrap();
    assert_eq!(everything.len(), 2);
    assert_eq!(everything[1].fields[0].value, Value::Text(text("sqlite_sequence")));
    assert_eq!(list_tables(&state), Ok(vec![text("log")]));
}

#[test]
fn insert_reports_one_record_and_its_identifier() {
    let state = fresh();
    create_table("CREATE TABLE t (id INTEGER PRIMARY KEY, name TEXT)", &state).unwrap();
    for expected in 1..=3i64 {
        let report =
            write_query("INSERT INTO t (name) VALUES (?1)", Some(vec![text("n")]), &state).unwrap();
        assert_eq!(report.rows_affected, Some(1));
        assert_eq!(report.last_insert_rowid, Some(expected));
        assert!(report.rows.is_empty());
        let newest = read_query("SELECT max(rowid) AS newest FROM t", None, &state).unwrap();
        assert_eq!(newest[0].fields, vec![field("newest", Value::Integer(expected))]);
    }
}

#[test]
fn update_and_delete_report_their_counts() {
    let state = fresh();
    create_table("CREATE TABLE t (id INTEGER PRIMARY KEY, name TEXT)", &state).unwrap();
    for name in ["a", "b", "c"] {
        write_query("INSERT INTO t (name) VALUES (?)", Some(vec![text(name)]), &state).unwrap();
    }
    let report = write_query("UPDATE t SET name = ? WHERE id > ?", Some(vec![text("z"), text("1")]), &state)
        .unwrap();
    assert_eq!(report.rows_affected, Some(2));
    assert_eq!(report.last_insert_rowid, Some(3));
    let report = write_query("DELETE FROM t", None, &state).unwrap();
    assert_eq!(report.rows_affected, Some(3));
    assert_eq!(report.last_insert_rowid, Some(3));
}

#[test]
fn text_comes_back_as_it_went_in() {
    let state = fresh();
    create_table("CREATE TABLE t (body TEXT)", &state).unwrap();
    let bodies = [
        "",
        "plain",
        "it's \"quoted\"",
        "Zo\u{eb} \u{1f600} \u{4e2d}\u{6587}",
        "line\nbreak\ttab",
        "42",
        " padded ",
        "?; DROP TABLE t; --",
    ];
    for body in bodies {
        write_query("DELETE FROM t", None, &state).unwrap();
        write_query("INSERT INTO t (body) VALUES (?)", Some(vec![text(body)]), &state).unwrap();
        assert_eq!(
            read_query("SELECT body FROM t", None, &state),
            Ok(vec![Record { fields: vec![field("body", Value::Text(text(body)))] }])
        );
        assert_eq!(
            read_query("SELECT body FROM t WHERE body = ?", Some(vec![text(body)]), &state),
            Ok(vec![Record { fields: vec![field("body", Value::Text(text(body)))] }])
        );
    }
}

#[test]
fn null_column_is_present_and_null() {
    let state = fresh();
    create_table("CREATE TABLE t (id INTEGER PRIMARY KEY, name TEXT, age INTEGER)", &state).unwrap();
    write_query("INSERT INTO t (name) VALUES (NULL)", None, &state).unwrap();
    assert_eq!(
        read_query("SELECT id, name, age FROM t", None, &state),
        Ok(vec![Record {
            fields: vec![
                field("id", Value::Integer(1)),
                field("name", Value::Null),
                field("age", Value::Null),
            ],
        }])
    );
}

#[test]
fn blob_column_reads_as_placeholder() {
    let state = fresh();
    assert_eq!(
        read_query("SELECT x'' AS none, x'010203' AS three, zeroblob(1000) AS many", None, &state),
        Ok(vec![Record {
            fields: vec![
                field("none", Value::Text(text("BLOB[0]"))),
                field("three", Value::Text(text("BLOB[3]"))),
                field("many", Value::Text(text("BLOB[1000]"))),
            ],
        }])
    );
}

#[test]
fn reals_and_integers_read_as_numbers() {
    let state = fresh();
    assert_eq!(
        read_query("SELECT 1.5 AS r, -7 AS i, 9223372036854775807 AS big, 1e999 AS inf", None, &state),
        Ok(vec![Record {
            fields: vec![
                field("r", Value::Real(1.5f64.to_bits())),
                field("i", Value::Integer(-7)),
                field("big", Value::Integer(i64::MAX)),
                field("inf", Value::Null),
            ],
        }])
    );
}

#[test]
fn fields_follow_the_columns_of_the_statement() {
    let state = fresh();
    create_table("CREATE TABLE t (zeta INTEGER, alpha INTEGER, mid INTEGER)", &state).unwrap();
    write_query("INSERT INTO t VALUES (1, 2, 3)", None, &state).unwrap();
    write_query("INSERT INTO t VALUES (4, 5, 6)", None, &state).unwrap();
    let records = read_query("SELECT mid, zeta, alpha, zeta FROM t ORDER BY zeta", None, &state).unwrap();
    assert_eq!(records.len(), 2);
    for record in &records {
        let names: Vec<&str> = record.fields.iter().map(|f| f.name.as_str()).collect();
        assert_eq!(names, vec!["mid", "zeta", "alpha", "zeta"]);
    }
    assert_eq!(
        records[1].fields,
        vec![
            field("mid", Value::Integer(6)),
            field("zeta", Value::Integer(4)),
            field("alpha", Value::Integer(5)),
            field("zeta", Value::Integer(4)),
        ]
    );
}

#[test]
fn text_that_is_not_utf8_is_left_out_of_its_record() {
    let state = fresh();
    assert_eq!(
        read_query("SELECT 1 AS a, CAST(x'ff' AS TEXT) AS bad, 'ok' AS c", None, &state),
        Ok(vec![Record { fields: vec![field("a", Value::Integer(1)), field("c", Value::Text(text("ok")))] }])
    );
}

#[test]
fn read_of_no_records_is_empty() {
    let state = fresh();
    create_table("CREATE TABLE t (id INTEGER)", &state).unwrap();
    assert_eq!(read_query("SELECT * FROM t", None, &state), Ok(vec![]));
    assert_eq!(read_query("SELECT * FROM t", Some(vec![]), &state), Ok(vec![]));
}

#[test]
fn parameters_are_bound_as_text() {
    let state = fresh();
    assert_eq!(
        read_query("SELECT ?1 AS v, typeof(?1) AS t", Some(vec![text("12")]), &state),
        Ok(vec![Record {
            fields: vec![field("v", Value::Text(text("12"))), field("t", Value::Text(text("text")))],
        }])
    );
}

fn sql_failure_of<T: std::fmt::Debug>(result: Result<T, BridgeError>) -> String {
    match result {
        Err(BridgeError::SqlFailure(message)) => message,
        other => panic!("no failure of the engine: {:?}", other),
    }
}

#[test]
fn engine_failures_come_back_with_the_engines_text() {
    let state = fresh();
    let message = sql_failure_of(create_table("CREATE TABEL t (id INTEGER)", &state));
    assert!(message.contains("syntax error"), "{}", message);
    create_table("CREATE TABLE t (id INTEGER PRIMARY KEY, name TEXT UNIQUE)", &state).unwrap();
    let message = sql_failure_of(create_table("CREATE TABLE t (id INTEGER)", &state));
    assert!(message.contains("already exists"), "{}", message);
    let message = sql_failure_of(read_query("SELECT * FROM missing", None, &state));
    assert!(message.contains("no such table"), "{}", message);
    write_query("INSERT INTO t (name) VALUES (?)", Some(vec![text("a")]), &state).unwrap();
    let message =
        sql_failure_of(write_query("INSERT INTO t (name) VALUES (?)", Some(vec![text("a")]), &state));
    assert!(message.contains("UNIQUE"), "{}", message);
    assert_eq!(read_query("SELECT count(*) AS n FROM t", None, &state).unwrap()[0].fields, vec![
        field("n", Value::Integer(1))
    ]);
}

#[test]
fn wrong_number_of_parameters_is_a_failure() {
    let state = fresh();
    create_table("CREATE TABLE t (a TEXT, b TEXT)", &state).unwrap();
    sql_failure_of(write_query("INSERT INTO t VALUES (?, ?)", Some(vec![text("only one")]), &state));
    sql_failure_of(write_query("INSERT INTO t VALUES (?, ?)", None, &state));
    sql_failure_of(read_query("SELECT * FROM t WHERE a = ?", None, &state));
    sql_failure_of(read_query("SELECT * FROM t", Some(vec![text("spare")]), &state));
    sql_failure_of(create_table("CREATE TABLE u (a TEXT DEFAULT ?)", &state));
    assert_eq!(read_query("SELECT * FROM t", None, &state), Ok(vec![]));
}

#[test]
fn more_than_one_statement_is_a_failure() {
    let state = fresh();
    sql_failure_of(create_table("CREATE TABLE a (x); CREATE TABLE b (x)", &state));
    sql_failure_of(read_query("SELECT 1; SELECT 2", None, &state));
}

#[test]
fn a_failed_statement_leaves_the_lock_free() {
    let state = fresh();
    sql_failure_of(create_table("nonsense", &state));
    sql_failure_of(read_query("nonsense", None, &state));
    sql_failure_of(write_query("nonsense", None, &state));
    assert_eq!(create_table("CREATE TABLE t (id INTEGER)", &state), Ok(()));
    assert_eq!(list_tables(&state), Ok(vec![text("t")]));
}

#[test]
fn statements_the_engine_cannot_run_are_failures() {
    let state = fresh();
    sql_failure_of(create_table("", &state));
    sql_failure_of(create_table("   -- only a comment", &state));
    sql_failure_of(create_table("SELECT 1\0", &state));
    sql_failure_of(read_query("", None, &state));
    assert_eq!(list_tables(&state), Ok(vec![]));
}

#[test]
fn a_statement_that_yields_records_is_no_mutation() {
    let state = fresh();
    let message = sql_failure_of(write_query("SELECT 1", None, &state));
    assert!(message.contains("returned results"), "{}", message);
    let message = sql_failure_of(create_table("SELECT 1", &state));
    assert!(message.contains("returned results"), "{}", message);
}

#[test]
fn describe_of_a_name_the_engine_does_not_take_is_the_engines_failure() {
    let state = fresh();
    let message = sql_failure_of(describe_table("order", &state));
    assert!(message.contains("syntax error"), "{}", message);
    sql_failure_of(describe_table("1abc", &state));
}

#[test]
fn describe_of_the_catalog_itself() {
    let state = fresh();
    let columns = describe_table("sqlite_master", &state).unwrap();
    let names: Vec<&str> = columns.iter().map(|c| c.name.as_str()).collect();
    assert_eq!(names, vec!["type", "name", "tbl_name", "rootpage", "sql"]);
    let positions: Vec<i64> = columns.iter().map(|c| c.cid).collect();
    assert_eq!(positions, vec![0, 1, 2, 3, 4]);
}

#[test]
fn unnamed_columns_get_the_engines_names() {
    let state = fresh();
    assert_eq!(
        read_query("SELECT 1 AS a, 2 AS a, 3", None, &state),
        Ok(vec![Record {
            fields: vec![
                field("a", Value::Integer(1)),
                field("a", Value::Integer(2)),
                field("3", Value::Integer(3)),
            ],
        }])
    );
}

#[test]
fn many_records_come_back_whole_and_in_order() {
    let state = fresh();
    create_table("CREATE TABLE t (n INTEGER)", &state).unwrap();
    for n in 0..100 {
        write_query("INSERT INTO t (n) VALUES (?)", Some(vec![n.to_string()]), &state).unwrap();
    }
    let records = read_query("SELECT n FROM t ORDER BY n", None, &state).unwrap();
    assert_eq!(records.len(), 100);
    for (n, record) in records.iter().enumerate() {
        assert_eq!(record.fields, vec![field("n", Value::Integer(n as i64))]);
    }
}

#[test]
fn columns_without_a_name_get_the_empty_name() {
    let state = fresh();
    assert_eq!(
        sql_bridge::bridge::read_query("SELECT 1 AS a, 'x' AS b", None, &state, &NoNames),
        Ok(vec![Record {
            fields: vec![field("", Value::Integer(1)), field("", Value::Text(text("x")))],
        }])
    );
}

#[test]
fn names_the_caller_knows_are_used_as_given() {
    let state = fresh();
    let known = vec![text("first"), text("second")];
    assert_eq!(
        sql_bridge::bridge::read_query("SELECT 1 AS a, 2 AS b", None, &state, &known),
        Ok(vec![Record {
            fields: vec![field("first", Value::Integer(1)), field("second", Value::Integer(2))],
        }])
    );
    let short = vec![text("only")];
    assert_eq!(
        sql_bridge::bridge::read_query("SELECT 1 AS a, 2 AS b", None, &state, &short),
        Ok(vec![Record {
            fields: vec![field("only", Value::Integer(1)), field("", Value::Integer(2))],
        }])
    );
    let long = vec![text("p"), text("q"), text("r")];
    assert_eq!(
        sql_bridge::bridge::read_query("SELECT 1 AS a", None, &state, &long),
        Ok(vec![Record { fields: vec![field("p", Value::Integer(1))] }])
    );
}
