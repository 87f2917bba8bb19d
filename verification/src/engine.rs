use vstd::prelude::*;
use crate::value::Cell;

verus! {

/// `rusqlite::Connection`: one open database. Nothing of its state is visible
/// to the proofs.
#[verifier::external_type_specification]
#[verifier::external_body]
pub struct ExConnection(rusqlite::Connection);

/// `rusqlite::Statement`: a statement that the engine has compiled.
#[verifier::external_type_specification]
#[verifier::external_body]
pub struct ExStatement<'conn>(rusqlite::Statement<'conn>);

/// `rusqlite::Rows`: the cursor over the records of a running query.
#[verifier::external_type_specification]
#[verifier::external_body]
pub struct ExRows<'stmt>(rusqlite::Rows<'stmt>);

/// `rusqlite::Row`: the record a cursor stands on.
#[verifier::external_type_specification]
#[verifier::external_body]
pub struct ExRow<'stmt>(rusqlite::Row<'stmt>);

/// `rusqlite::Error`: whatever the engine or its binding reports.
#[verifier::external_type_specification]
#[verifier::external_body]
pub struct ExError(rusqlite::Error);

/// Calls `rusqlite::Connection::prepare`. What comes back depends on the
/// database, so nothing is claimed of it.
#[verifier::external_body]
pub(crate) fn prepare<'c>(conn: &'c rusqlite::Connection, sql: &str) -> (r: Result<
    rusqlite::Statement<'c>,
    rusqlite::Error,
>) {
    conn.prepare(sql)
}

/// Calls `rusqlite::Connection::execute` with `params` bound by position, each
/// as text. The count of changed records and the error both depend on the
/// database, so nothing is claimed of them.
#[verifier::external_body]
pub(crate) fn execute(conn: &rusqlite::Connection, sql: &str, params: &Vec<String>) -> (r: Result<
    usize,
    rusqlite::Error,
>) {
    conn.execute(sql, rusqlite::params_from_iter(params.iter()))
}

/// Calls `rusqlite::Connection::last_insert_rowid`. The identifier belongs to
/// the connection's history, so nothing is claimed of it.
#[verifier::external_body]
pub(crate) fn last_insert_rowid(conn: &rusqlite::Connection) -> (id: i64) {
    conn.last_insert_rowid()
}

/// Calls `rusqlite::Statement::column_count`.
#[verifier::external_body]
pub(crate) fn column_count(stmt: &rusqlite::Statement<'_>) -> (n: usize) {
    stmt.column_count()
}

/// Calls `rusqlite::Statement::query` with `params` bound by position, each as
/// text.
#[verifier::external_body]
pub(crate) fn query<'s>(stmt: &'s mut rusqlite::Statement<'_>, params: &Vec<String>) -> (r: Result<
    rusqlite::Rows<'s>,
    rusqlite::Error,
>) {
    stmt.query(rusqlite::params_from_iter(params.iter()))
}

/// Calls `rusqlite::Rows::next`: the next record, `None` after the last one,
/// or the engine's error.
#[verifier::external_body]
pub(crate) fn next_row<'a, 's>(rows: &'a mut rusqlite::Rows<'s>) -> (r: Result<
    Option<&'a rusqlite::Row<'s>>,
    rusqlite::Error,
>) {
    rows.next()
}

/// Calls `rusqlite::Row::get` for a `rusqlite::types::Value` and hands the
/// value out variant by variant, a real number as its bit pattern. The binding
/// fails on an index past the last column and on a text that is not UTF-8.
#[verifier::external_body]
pub(crate) fn cell(row: &rusqlite::Row<'_>, index: usize) -> (r: Result<Cell, rusqlite::Error>) {
    match row.get::<_, rusqlite::types::Value>(index) {
        Ok(rusqlite::types::Value::Null) => Ok(Cell::Null),
        Ok(rusqlite::types::Value::Integer(i)) => Ok(Cell::Integer(i)),
        Ok(rusqlite::types::Value::Real(x)) => Ok(Cell::Real(x.to_bits())),
        Ok(rusqlite::types::Value::Text(s)) => Ok(Cell::Text(s)),
        Ok(rusqlite::types::Value::Blob(b)) => Ok(Cell::Blob(b)),
        Err(e) => Err(e),
    }
}

/// The text of a `rusqlite::Error`, as its `Display` writes it.
#[verifier::external_body]
pub(crate) fn message(e: &rusqlite::Error) -> (s: String) {
    e.to_string()
}

} // verus!
