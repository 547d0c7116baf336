//! The database engine, as the actors see it.
//!
//! Everything here is a thin call into `rusqlite`. What a call returns depends
//! on the database file, so nothing is claimed of the results beyond their
//! types; the actors are verified for every outcome.

use vstd::prelude::*;
use crate::value::Real;

verus! {

#[verifier::external_type_specification]
#[verifier::external_body]
pub struct ExEngineConnection(rusqlite::Connection);

#[verifier::external_type_specification]
#[verifier::external_body]
pub struct ExEngineStatement<'conn>(rusqlite::Statement<'conn>);

#[verifier::external_type_specification]
#[verifier::external_body]
pub struct ExEngineRows<'stmt>(rusqlite::Rows<'stmt>);

#[verifier::external_type_specification]
#[verifier::external_body]
pub struct ExEngineRow<'stmt>(rusqlite::Row<'stmt>);

/// The largest lock-wait timeout, in milliseconds, that the engine accepts.
pub const MAX_BUSY_TIMEOUT_MS: u64 = 2147483647;

/// What `Row::get` reads from one column when asked for each of the four
/// types in turn; a type that the column does not hold reads as `None`.
#[derive(Debug)]
pub struct ColumnRead {
    pub text: Option<String>,
    pub integer: Option<i64>,
    pub number: Option<Real>,
    pub blob: Option<Vec<u8>>,
}

/// `Connection::open`: opens the database file at `path`, creating it if absent.
#[verifier::external_body]
pub(crate) fn open_database(path: &str) -> (opened: Result<rusqlite::Connection, rusqlite::Error>) {
    rusqlite::Connection::open(path)
}

/// `Connection::prepare`: compiles one statement.
#[verifier::external_body]
pub(crate) fn prepare_statement<'conn>(conn: &'conn rusqlite::Connection, sql: &str) -> (prepared:
    Result<rusqlite::Statement<'conn>, rusqlite::Error>) {
    conn.prepare(sql)
}

/// `Connection::execute`: runs one statement with positional parameters and
/// returns the number of rows it changed.
#[verifier::external_body]
pub(crate) fn execute_sql(
    conn: &rusqlite::Connection,
    sql: &str,
    params: &Vec<rusqlite::types::Value>,
) -> (changed: Result<usize, rusqlite::Error>) {
    conn.execute(sql, rusqlite::params_from_iter(params.iter()))
}

/// `Connection::changes`: rows changed by the most recent statement.
#[verifier::external_body]
pub(crate) fn connection_changes(conn: &rusqlite::Connection) -> (changed: u64) {
    conn.changes()
}

/// `Connection::last_insert_rowid`.
#[verifier::external_body]
pub(crate) fn connection_last_insert_rowid(conn: &rusqlite::Connection) -> (rowid: i64) {
    conn.last_insert_rowid()
}

/// `Connection::busy_timeout`. The engine counts the timeout in a 32-bit
/// signed number of milliseconds and panics on more.
#[verifier::external_body]
pub(crate) fn connection_busy_timeout(conn: &rusqlite::Connection, millis: u64) -> (set: Result<
    (),
    rusqlite::Error,
>)
    requires
        millis <= MAX_BUSY_TIMEOUT_MS,
{
    conn.busy_timeout(std::time::Duration::from_millis(millis))
}

/// `Statement::column_names`, each name copied out.
#[verifier::external_body]
pub(crate) fn statement_column_names(stmt: &rusqlite::Statement<'_>) -> (names: Vec<String>) {
    stmt.column_names().into_iter().map(|name| name.to_owned()).collect()
}

/// `Statement::column_count`.
#[verifier::external_body]
pub(crate) fn statement_column_count(stmt: &rusqlite::Statement<'_>) -> (count: usize) {
    stmt.column_count()
}

/// `Statement::parameter_count`.
#[verifier::external_body]
pub(crate) fn statement_parameter_count(stmt: &rusqlite::Statement<'_>) -> (count: usize) {
    stmt.parameter_count()
}

/// `Statement::raw_bind_parameter`: binds one value at a one-based position.
#[verifier::external_body]
pub(crate) fn statement_bind(
    stmt: &mut rusqlite::Statement<'_>,
    position: usize,
    value: rusqlite::types::Value,
) -> (bound: Result<(), rusqlite::Error>) {
    stmt.raw_bind_parameter(position, value)
}

/// `Statement::clear_bindings`.
#[verifier::external_body]
pub(crate) fn statement_clear_bindings(stmt: &mut rusqlite::Statement<'_>) {
    stmt.clear_bindings()
}

/// `Statement::raw_query`: a cursor over the statement with the parameters
/// bound so far. Dropping the cursor resets the statement.
#[verifier::external_body]
pub(crate) fn open_cursor<'a>(stmt: &'a mut rusqlite::Statement<'_>) -> (rows: rusqlite::Rows<'a>) {
    stmt.raw_query()
}

/// `Rows::next`: steps the cursor. `Ok(None)` means that it is exhausted.
#[verifier::external_body]
pub(crate) fn cursor_advance<'a, 'stmt>(rows: &'a mut rusqlite::Rows<'stmt>) -> (row: Result<
    Option<&'a rusqlite::Row<'stmt>>,
    rusqlite::Error,
>) {
    rows.next()
}

/// `Rows::as_ref`: the statement under the cursor, while the cursor is live.
#[verifier::external_body]
pub(crate) fn cursor_statement<'a, 'stmt>(rows: &'a rusqlite::Rows<'stmt>) -> (stmt: Option<
    &'a rusqlite::Statement<'stmt>,
>) {
    rows.as_ref()
}

/// `Row::get` on one column, once for each type a value can have. A real
/// number is read in the engine's own form of a value.
#[verifier::external_body]
pub(crate) fn row_column(row: &rusqlite::Row<'_>, index: usize) -> (read: ColumnRead) {
    ColumnRead {
        text: row.get(index).ok(),
        integer: row.get(index).ok(),
        number: match row.get(index) {
            Ok(raw @ rusqlite::types::Value::Real(_)) => Some(Real { raw }),
            _ => None,
        },
        blob: row.get(index).ok(),
    }
}

/// `rusqlite::version`: the version of the engine that is linked in.
#[verifier::external_body]
pub(crate) fn engine_version() -> (version: String) {
    rusqlite::version().to_owned()
}

} // verus!
