use vstd::prelude::*;
use crate::engine;
use crate::error::BridgeError;
use crate::guard::{held, DbState};
use crate::identifier::{is_identifier, table_info_statement};
use crate::record::{
    build_record, cells_of, field_names, holds_cell_values, lemma_conforming_record,
    lemma_record_embeds, names_of, record_conforms, record_of, Record,
};
use crate::schema::{column_info, is_internal_name, keep_user_tables, text_of, ColumnInfo};
use crate::value::Cell;

verus! {

/// The statement that lists the tables of the catalog by name.
pub const TABLES_STATEMENT: &'static str =
    "SELECT name FROM sqlite_master WHERE type='table' ORDER BY name";

/// What a mutating statement reports.
#[derive(Clone, Debug, PartialEq, Eq)]
pub struct QueryResult {
    /// Always empty: a mutating statement yields no records.
    pub rows: Vec<Record>,
    /// The identifier that the connection last gave to an inserted record.
    /// It belongs to the connection, not to the statement: after a statement
    /// that inserted nothing it is that of an earlier insert.
    pub last_insert_rowid: Option<i64>,
    /// How many records the statement changed, as the engine counts them.
    pub rows_affected: Option<usize>,
}

impl QueryResult {
    /// The report of a mutating statement that changed `rows_affected`
    /// records, on a connection whose last inserted record has the identifier
    /// `last_insert_rowid`.
    pub fn written(rows_affected: usize, last_insert_rowid: i64) -> (q: QueryResult)
        ensures
            q.rows@.len() == 0,
            q.last_insert_rowid == Some(last_insert_rowid),
            q.rows_affected == Some(rows_affected),
    {
        QueryResult {
            rows: Vec::new(),
            last_insert_rowid: Some(last_insert_rowid),
            rows_affected: Some(rows_affected),
        }
    }
}

/// The engine's failure as the bridge reports it: the engine's `text`, as it is.
fn sql_failure(text: String) -> (failure: BridgeError)
    ensures
        failure == BridgeError::SqlFailure(text),
{
    BridgeError::SqlFailure(text)
}

/// The failure of a statement whose records are more than a list can hold.
fn too_many_records() -> (failure: BridgeError)
    ensures
        failure matches BridgeError::SqlFailure(text) && text@ == too_many_records_text(),
{
    BridgeError::SqlFailure(
        String::from_str("the result has more records than memory can address"),
    )
}

/// The failure of a record of the catalog that is not of the expected shape.
fn unexpected_shape() -> (failure: BridgeError)
    ensures
        failure matches BridgeError::SqlFailure(text) && text@ == unexpected_shape_text(),
{
    BridgeError::SqlFailure(
        String::from_str("a record of the catalog does not have the expected shape"),
    )
}

/// Every record is a record of a statement with the columns `names`.
pub open spec fn records_conform(records: Seq<Record>, names: Seq<Seq<char>>) -> bool {
    forall|k: int| 0 <= k < records.len() ==> record_conforms((#[trigger] records[k])@, names)
}

/// There are column names that every one of the records is a record of.
///
/// This says less than it may seem to. A cell that could not be read leaves
/// no field, so two records of one statement need not have a single name in
/// common, and any records whose values are conversions of cells are records
/// of the statement whose columns are the fields of all of them, one after
/// the other. What the predicate gives is what
/// [`lemma_records_of_one_statement`] states: every value of every record is
/// the conversion of a cell.
pub open spec fn records_of_one_statement(records: Seq<Record>) -> bool {
    exists|names: Seq<Seq<char>>| #[trigger] records_conform(records, names)
}

/// The field names of all the records, one record after the other.
pub open spec fn all_field_names(records: Seq<Record>) -> Seq<Seq<char>>
    decreases records.len(),
{
    if records.len() == 0 {
        Seq::empty()
    } else {
        all_field_names(records.drop_last()) + field_names(records.last()@)
    }
}

proof fn lemma_field_names_stand_in_a_row(records: Seq<Record>, k: int) -> (around: (
    Seq<Seq<char>>,
    Seq<Seq<char>>,
))
    requires
        0 <= k < records.len(),
    ensures
        all_field_names(records) == around.0 + field_names(records[k]@) + around.1,
    decreases records.len(),
{
    let earlier = records.drop_last();
    let last = field_names(records.last()@);
    if k == records.len() - 1 {
        let around = (all_field_names(earlier), Seq::<Seq<char>>::empty());
        assert(all_field_names(records) =~= around.0 + field_names(records[k]@) + around.1);
        around
    } else {
        let inner = lemma_field_names_stand_in_a_row(earlier, k);
        let around = (inner.0, inner.1 + last);
        assert(earlier[k] == records[k]);
        assert(all_field_names(records) =~= around.0 + field_names(records[k]@) + around.1);
        around
    }
}

/// Records are records of one statement exactly when every value of every
/// one of them is the conversion of a cell: a null, an integer, a text or a
/// finite real number.
pub proof fn lemma_records_of_one_statement(records: Seq<Record>)
    ensures
        records_of_one_statement(records) <==> (forall|k: int|
            0 <= k < records.len() ==> holds_cell_values((#[trigger] records[k])@)),
{
    if records_of_one_statement(records) {
        let names = choose|names: Seq<Seq<char>>| #[trigger] records_conform(records, names);
        assert forall|k: int| 0 <= k < records.len() implies holds_cell_values(
            (#[trigger] records[k])@,
        ) by {
            lemma_conforming_record(records[k]@, names);
        }
    }
    if forall|k: int| 0 <= k < records.len() ==> holds_cell_values((#[trigger] records[k])@) {
        let names = all_field_names(records);
        assert forall|k: int| 0 <= k < records.len() implies record_conforms(
            (#[trigger] records[k])@,
            names,
        ) by {
            let around = lemma_field_names_stand_in_a_row(records, k);
            lemma_record_embeds(around.0, records[k]@, around.1);
        }
        assert(records_conform(records, names));
    }
}

/// The parameters that are bound to a statement: those given, in their
/// order, and none where none were given.
pub fn bound_parameters(parameters: Option<Vec<String>>) -> (params: Vec<String>)
    ensures
        parameters matches Some(given) ==> params@ == given@,
        parameters is None ==> params@.len() == 0,
{
    match parameters {
        Some(given) => given,
        None => Vec::new(),
    }
}

/// The host's reading of the names of a compiled statement's columns.
///
/// The library does not read the names itself. The engine does not check the
/// encoding of the names in a database, and the binding's only reading of a
/// name ends the thread on one that is not UTF-8. So the host reads the names
/// and answers for how it does so. Nothing is taken on trust of what it hands
/// back: any text is a name, and `None` is a name that could not be given.
pub trait ColumnNames {
    /// The name of the column at `index`, counted from zero, in the result of
    /// `stmt`; `None` where the name cannot be given.
    fn column_name(&self, stmt: &rusqlite::Statement<'_>, index: usize) -> (name: Option<String>);
}

/// The names of a statement whose author knows them: the name of the column
/// at `index` is the text at `index`, and a column past the end of the list
/// has no name.
impl ColumnNames for Vec<String> {
    fn column_name(&self, stmt: &rusqlite::Statement<'_>, index: usize) -> (name: Option<String>)
        ensures
            index < self@.len() ==> name == Some(self@[index as int]),
            index >= self@.len() ==> name is None,
    {
        if index < self.len() {
            Some(self[index].clone())
        } else {
            None
        }
    }
}

/// The names that `reader` gives for the first `n` columns of a compiled
/// statement, one for each column and in the statement's order. A column
/// whose name is not given gets the empty name.
fn column_names<N: ColumnNames>(reader: &N, stmt: &rusqlite::Statement<'_>, n: usize) -> (names:
    Vec<String>)
    ensures
        names@.len() == n,
{
    let mut names: Vec<String> = Vec::new();
    let mut i: usize = 0;
    while i < n
        invariant
            i <= n,
            names@.len() == i,
        decreases n - i,
    {
        let name = match reader.column_name(stmt, i) {
            Some(name) => name,
            None => String::new(),
        };
        names.push(name);
        i = i + 1;
    }
    names
}

/// Reads the first `n` cells of the record the cursor stands on. A cell that
/// the engine cannot hand out is `None`; the cells after it are still read.
fn read_cells(row: &rusqlite::Row<'_>, n: usize) -> (cells: Vec<Option<Cell>>)
    ensures
        cells@.len() == n,
{
    let mut cells: Vec<Option<Cell>> = Vec::new();
    let mut i: usize = 0;
    while i < n
        invariant
            i <= n,
            cells@.len() == i,
        decreases n - i,
    {
        let read = match engine::cell(row, i) {
            Ok(c) => Some(c),
            Err(_) => None,
        };
        cells.push(read);
        i = i + 1;
    }
    cells
}

/// Runs one statement that yields records and hands back all of them.
///
/// `parameters` are bound by position, each as text; none given is the same
/// as an empty list. The names of the columns are asked of `reader`, once,
/// before the first record is read. Every record has its fields in the order
/// of the statement's columns. A cell that cannot be read is left out of its
/// record; the rest of the record and of the result is kept. Any other
/// failure ends the operation without a partial result. The lock on the
/// connection is held from before the statement is compiled until the last
/// record is read.
///
/// Which records come back is the engine's to say, and the names are the
/// reader's. The contract states what holds of every outcome: each value of
/// each record is the conversion of a cell.
pub fn read_query<N: ColumnNames>(
    query: &str,
    parameters: Option<Vec<String>>,
    state: &DbState,
    reader: &N,
) -> (r: Result<Vec<Record>, BridgeError>)
    ensures
        r matches Ok(records) ==> records_of_one_statement(records@),
        r matches Err(e) ==> e is LockFailure || e is SqlFailure,
{
    let guard = match state.acquire() {
        Ok(guard) => guard,
        Err(e) => {
            return Err(e);
        },
    };
    let conn = held(&guard);
    let mut stmt = match engine::prepare(conn, query) {
        Ok(stmt) => stmt,
        Err(e) => {
            return Err(sql_failure(engine::message(&e)));
        },
    };
    let width: usize = engine::column_count(&stmt);
    let names = column_names(reader, &stmt, width);
    let params: Vec<String> = bound_parameters(parameters);
    let mut cursor = match engine::query(&mut stmt, &params) {
        Ok(cursor) => cursor,
        Err(e) => {
            return Err(sql_failure(engine::message(&e)));
        },
    };
    let mut records: Vec<Record> = Vec::new();
    while records.len() < usize::MAX
        invariant
            names@.len() == width,
            records_conform(records@, names_of(names@)),
        decreases usize::MAX - records.len(),
    {
        let row = match engine::next_row(&mut cursor) {
            Ok(Some(row)) => row,
            Ok(None) => {
                assert(records_of_one_statement(records@)) by {
                    assert(records_conform(records@, names_of(names@)));
                }
                return Ok(records);
            },
            Err(e) => {
                return Err(sql_failure(engine::message(&e)));
            },
        };
        let cells = read_cells(row, width);
        let record = build_record(&names, &cells);
        proof {
            assert(cells_of(cells@).len() == names_of(names@).len());
            assert(record@ == record_of(names_of(names@), cells_of(cells@)));
            assert(record_conforms(record@, names_of(names@)));
        }
        records.push(record);
    }
    Err(too_many_records())
}

/// Reads the first `n` cells of the record the cursor stands on, all of them
/// or none: the first cell that the engine cannot hand out ends the reading
/// with the engine's failure.
fn read_all_cells(row: &rusqlite::Row<'_>, n: usize) -> (r: Result<Vec<Cell>, BridgeError>)
    ensures
        r matches Ok(cells) ==> cells@.len() == n,
        r matches Err(e) ==> e is SqlFailure,
{
    let mut cells: Vec<Cell> = Vec::new();
    let mut i: usize = 0;
    while i < n
        invariant
            i <= n,
            cells@.len() == i,
        decreases n - i,
    {
        match engine::cell(row, i) {
            Ok(c) => {
                cells.push(c);
            },
            Err(e) => {
                return Err(sql_failure(engine::message(&e)));
            },
        }
        i = i + 1;
    }
    Ok(cells)
}

/// Runs one statement that takes no parameters and yields no records, such as
/// the creation of a table. The lock on the connection is held while the
/// statement runs. The engine's failure comes back with the engine's text.
pub fn create_table(query: &str, state: &DbState) -> (r: Result<(), BridgeError>)
    ensures
        r matches Err(e) ==> e is LockFailure || e is SqlFailure,
{
    let guard = match state.acquire() {
        Ok(guard) => guard,
        Err(e) => {
            return Err(e);
        },
    };
    let conn = held(&guard);
    let none: Vec<String> = Vec::new();
    match engine::execute(conn, query, &none) {
        Ok(_) => Ok(()),
        Err(e) => Err(sql_failure(engine::message(&e))),
    }
}

/// Runs one mutating statement and reports what it did.
///
/// `parameters` are bound by position, each as text; none given is the same
/// as an empty list. The report holds the count of changed records and the
/// identifier of the connection's last inserted record, and no records. The
/// lock on the connection is held from before the statement runs until the
/// identifier is read, so the identifier is that of this statement's insert
/// if it made one.
pub fn write_query(query: &str, parameters: Option<Vec<String>>, state: &DbState) -> (r: Result<
    QueryResult,
    BridgeError,
>)
    ensures
        r matches Ok(q) ==> q.rows@.len() == 0 && q.last_insert_rowid is Some && q.rows_affected
            is Some,
        r matches Err(e) ==> e is LockFailure || e is SqlFailure,
{
    let guard = match state.acquire() {
        Ok(guard) => guard,
        Err(e) => {
            return Err(e);
        },
    };
    let conn = held(&guard);
    let params: Vec<String> = bound_parameters(parameters);
    let rows_affected: usize = match engine::execute(conn, query, &params) {
        Ok(count) => count,
        Err(e) => {
            return Err(sql_failure(engine::message(&e)));
        },
    };
    let last_insert_rowid: i64 = engine::last_insert_rowid(conn);
    Ok(QueryResult::written(rows_affected, last_insert_rowid))
}

/// Lists the tables of the database by name, in the order the engine sorts
/// them, without the engine's own tables. The lock on the connection is held
/// until the last name is read.
pub fn list_tables(state: &DbState) -> (r: Result<Vec<String>, BridgeError>)
    ensures
        r matches Ok(tables) ==> forall|i: int|
            0 <= i < tables@.len() ==> !is_internal_name((#[trigger] tables@[i])@),
        r matches Err(e) ==> e is LockFailure || e is SqlFailure,
{
    let guard = match state.acquire() {
        Ok(guard) => guard,
        Err(e) => {
            return Err(e);
        },
    };
    let conn = held(&guard);
    let mut stmt = match engine::prepare(conn, TABLES_STATEMENT) {
        Ok(stmt) => stmt,
        Err(e) => {
            return Err(sql_failure(engine::message(&e)));
        },
    };
    let none: Vec<String> = Vec::new();
    let mut cursor = match engine::query(&mut stmt, &none) {
        Ok(cursor) => cursor,
        Err(e) => {
            return Err(sql_failure(engine::message(&e)));
        },
    };
    let mut names: Vec<String> = Vec::new();
    while names.len() < usize::MAX
        decreases usize::MAX - names.len(),
    {
        let row = match engine::next_row(&mut cursor) {
            Ok(Some(row)) => row,
            Ok(None) => {
                return Ok(keep_user_tables(&names));
            },
            Err(e) => {
                return Err(sql_failure(engine::message(&e)));
            },
        };
        let name = match engine::cell(row, 0) {
            Ok(c) => text_of(&c),
            Err(e) => {
                return Err(sql_failure(engine::message(&e)));
            },
        };
        match name {
            Some(name) => {
                names.push(name);
            },
            None => {
                return Err(unexpected_shape());
            },
        }
    }
    Err(too_many_records())
}

/// Describes the columns of the table `table_name`, one entry per column in
/// the order of the table.
///
/// The name becomes part of the statement's text, so it is checked first: a
/// name that is not a plain identifier is refused before the lock is taken
/// and before the engine sees anything. A table that does not exist has no
/// columns. The lock on the connection is held until the last column is read.
pub fn describe_table(table_name: &str, state: &DbState) -> (r: Result<
    Vec<ColumnInfo>,
    BridgeError,
>)
    ensures
        !is_identifier(table_name@) ==> (r matches Err(BridgeError::InvalidIdentifier(name))
            && name@ == table_name@),
        is_identifier(table_name@) ==> (r matches Err(e) ==> e is LockFailure || e is SqlFailure),
{
    let sql = match table_info_statement(table_name) {
        Ok(sql) => sql,
        Err(e) => {
            return Err(e);
        },
    };
    let guard = match state.acquire() {
        Ok(guard) => guard,
        Err(e) => {
            return Err(e);
        },
    };
    let conn = held(&guard);
    let mut stmt = match engine::prepare(conn, sql.as_str()) {
        Ok(stmt) => stmt,
        Err(e) => {
            return Err(sql_failure(engine::message(&e)));
        },
    };
    let none: Vec<String> = Vec::new();
    let mut cursor = match engine::query(&mut stmt, &none) {
        Ok(cursor) => cursor,
        Err(e) => {
            return Err(sql_failure(engine::message(&e)));
        },
    };
    let mut columns: Vec<ColumnInfo> = Vec::new();
    while columns.len() < usize::MAX
        invariant
            is_identifier(table_name@),
        decreases usize::MAX - columns.len(),
    {
        let row = match engine::next_row(&mut cursor) {
            Ok(Some(row)) => row,
            Ok(None) => {
                return Ok(columns);
            },
            Err(e) => {
                return Err(sql_failure(engine::message(&e)));
            },
        };
        let cells = match read_all_cells(row, 6) {
            Ok(cells) => cells,
            Err(e) => {
                return Err(e);
            },
        };
        match column_info(&cells) {
            Some(column) => {
                columns.push(column);
            },
            None => {
                return Err(unexpected_shape());
            },
        }
    }
    Err(too_many_records())
}

/// The words of welcome for `name`.
pub open spec fn greeting(name: Seq<char>) -> Seq<char> {
    "Hello, "@ + name + "! Welcome to the AI Conversation Manager."@
}

/// Greets `name`.
pub fn greet(name: &str) -> (s: String)
    ensures
        s@ == greeting(name@),
{
    let mut s = String::from_str("Hello, ");
    s.append(name);
    s.append("! Welcome to the AI Conversation Manager.");
    s
}

/// What the bridge says of a result with more records than a list can hold.
pub open spec fn too_many_records_text() -> Seq<char> {
    "the result has more records than memory can address"@
}

/// What the bridge says of a record of the catalog that is not of the
/// expected shape.
pub open spec fn unexpected_shape_text() -> Seq<char> {
    "a record of the catalog does not have the expected shape"@
}

} // verus!
