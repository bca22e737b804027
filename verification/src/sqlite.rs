//! Access to SQLite through the `rusqlite` crate.
//!
//! What a statement does to the database and what a query reads from it
//! depend on the database file, so the wrappers here promise nothing of
//! their results beyond their shape.

use vstd::prelude::*;

verus! {

/// A connection to an SQLite database (`rusqlite::Connection`).
#[verifier::external_type_specification]
#[verifier::external_body]
pub struct ExConnection(rusqlite::Connection);

/// An error of `rusqlite`.
#[verifier::external_type_specification]
#[verifier::external_body]
pub struct ExSqliteError(rusqlite::Error);

/// A value bound to a statement parameter.
pub enum SqlParam {
    Null,
    Integer(i64),
    Text(String),
}

/// Mathematical view of a [`SqlParam`].
pub enum SqlParamView {
    Null,
    Integer(i64),
    Text(Seq<char>),
}

impl View for SqlParam {
    type V = SqlParamView;

    open spec fn view(&self) -> SqlParamView {
        match self {
            SqlParam::Null => SqlParamView::Null,
            SqlParam::Integer(i) => SqlParamView::Integer(*i),
            SqlParam::Text(s) => SqlParamView::Text(s@),
        }
    }
}

/// The view of a parameter list.
pub open spec fn params_view(p: Seq<SqlParam>) -> Seq<SqlParamView> {
    p.map_values(|x: SqlParam| x@)
}

/// A value read from a result column. A floating-point value is read as
/// `Real`, without its number, which nothing here uses.
pub enum SqlValue {
    Null,
    Integer(i64),
    Real,
    Text(String),
    Blob(Vec<u8>),
}

/// A value of `rusqlite` (`rusqlite::types::Value`).
#[verifier::external_type_specification]
#[verifier::external_body]
pub struct ExValue(rusqlite::types::Value);

/// The `rusqlite::types::Value` of the same kind as a parameter: `Null`,
/// `Integer` or `Text` with the same contents.
#[verifier::external_body]
fn to_value(p: &SqlParam) -> (v: rusqlite::types::Value) {
    match p {
        SqlParam::Null => rusqlite::types::Value::Null,
        SqlParam::Integer(i) => rusqlite::types::Value::Integer(*i),
        SqlParam::Text(s) => rusqlite::types::Value::Text(s.clone()),
    }
}

/// The [`SqlValue`] of the same kind as a `rusqlite::types::Value`, with
/// the same contents (no number for a `Real`).
#[verifier::external_body]
fn from_value(v: rusqlite::types::Value) -> (r: SqlValue) {
    match v {
        rusqlite::types::Value::Null => SqlValue::Null,
        rusqlite::types::Value::Integer(i) => SqlValue::Integer(i),
        rusqlite::types::Value::Real(_) => SqlValue::Real,
        rusqlite::types::Value::Text(s) => SqlValue::Text(s),
        rusqlite::types::Value::Blob(b) => SqlValue::Blob(b),
    }
}

/// The `rusqlite` values of a parameter list.
fn to_values(params: &Vec<SqlParam>) -> (r: Vec<rusqlite::types::Value>)
    ensures
        r@.len() == params@.len(),
{
    let mut r: Vec<rusqlite::types::Value> = Vec::new();
    let mut i: usize = 0;
    while i < params.len()
        invariant
            i <= params@.len(),
            r@.len() == i,
        decreases params.len() - i,
    {
        r.push(to_value(&params[i]));
        i = i + 1;
    }
    r
}

/// Opens the database file at `path` (`rusqlite::Connection::open`).
/// Whether it succeeds depends on the file system: nothing is promised.
#[verifier::external_body]
pub(crate) fn open_connection(path: &str) -> (r: Result<rusqlite::Connection, rusqlite::Error>) {
    rusqlite::Connection::open(path)
}

/// Runs the statements of `sql` (`Connection::execute_batch`). Nothing is
/// promised of the outcome, which depends on the database.
#[verifier::external_body]
pub(crate) fn execute_batch(conn: &rusqlite::Connection, sql: &str) -> (r: Result<(), rusqlite::Error>) {
    conn.execute_batch(sql)
}

/// Runs the statement `sql` with the parameters `params`
/// (`Connection::execute` with `params_from_iter`). Nothing is promised of
/// the outcome, which depends on the database.
#[verifier::external_body]
fn execute_values(conn: &rusqlite::Connection, sql: &str, params: &Vec<rusqlite::types::Value>) -> (r: Result<usize, rusqlite::Error>) {
    conn.execute(sql, rusqlite::params_from_iter(params.iter()))
}

/// Runs the statement `sql` with the parameters `params`.
pub(crate) fn execute(conn: &rusqlite::Connection, sql: &str, params: &Vec<SqlParam>) -> (r: Result<usize, rusqlite::Error>) {
    let values = to_values(params);
    execute_values(conn, sql, &values)
}

/// Prepares the statement `sql` on `conn` and drops it
/// (`Connection::prepare`): whether the statement compiles against the
/// database's schema. Nothing is promised of the outcome, which depends on
/// the database.
#[verifier::external_body]
pub(crate) fn prepare_statement(conn: &rusqlite::Connection, sql: &str) -> (r: Result<(), rusqlite::Error>) {
    conn.prepare(sql).map(|_| ())
}

/// The row id of the last insertion on `conn`
/// (`Connection::last_insert_rowid`); it depends on the database.
#[verifier::external_body]
pub(crate) fn last_insert_rowid(conn: &rusqlite::Connection) -> (r: i64) {
    conn.last_insert_rowid()
}

/// Runs the query `sql` with `params` and reads the columns `0..width` of
/// every row (`Connection::prepare`, `Statement::query_map`, `Row::get`).
/// What rows come back depends on the database; the contract states only
/// that each row read has `width` values.
#[verifier::external_body]
fn query_values(conn: &rusqlite::Connection, sql: &str, params: &Vec<rusqlite::types::Value>, width: usize) -> (r: Result<Vec<Vec<rusqlite::types::Value>>, rusqlite::Error>)
    ensures
        r matches Ok(rows) ==> forall|i: int| 0 <= i < rows@.len() ==> (#[trigger] rows@[i])@.len() == width,
{
    let mut stmt = conn.prepare(sql)?;
    let rows = stmt.query_map(rusqlite::params_from_iter(params.iter()), |row| (0..width).map(|i| row.get(i)).collect())?;
    rows.collect()
}

/// Runs the query `sql` with `params` and reads the columns `0..width` of
/// every row.
pub(crate) fn query_rows(conn: &rusqlite::Connection, sql: &str, params: &Vec<SqlParam>, width: usize) -> (r: Result<Vec<Vec<SqlValue>>, rusqlite::Error>)
    ensures
        r matches Ok(rows) ==> forall|i: int| 0 <= i < rows@.len() ==> (#[trigger] rows@[i])@.len() == width,
{
    let values = to_values(params);
    let mut raw = query_values(conn, sql, &values, width)?;
    let mut rows: Vec<Vec<SqlValue>> = Vec::new();
    while raw.len() > 0
        invariant
            forall|i: int| 0 <= i < raw@.len() ==> (#[trigger] raw@[i])@.len() == width,
            forall|i: int| 0 <= i < rows@.len() ==> (#[trigger] rows@[i])@.len() == width,
        decreases raw@.len(),
    {
        assert(raw@[0]@.len() == width);
        let mut row = raw.remove(0);
        let mut converted: Vec<SqlValue> = Vec::new();
        while row.len() > 0
            invariant
                converted@.len() + row@.len() == width,
            decreases row@.len(),
        {
            let v = row.remove(0);
            converted.push(from_value(v));
        }
        rows.push(converted);
    }
    Ok(rows)
}

/// The message of a `rusqlite` error (its `Display` text).
#[verifier::external_body]
pub(crate) fn error_text(e: &rusqlite::Error) -> (r: String) {
    e.to_string()
}

} // verus!
