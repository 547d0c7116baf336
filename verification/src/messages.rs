//! The requests that actors take and the answers they give.

use vstd::prelude::*;
use crate::channel::StatementLink;
use crate::error::RusqliteError;
use crate::value::SQLiteValue;

verus! {

/// A request to a context actor.
#[derive(Debug)]
pub enum ContextInput {
    /// Open the database file at this path and start a connection actor on it.
    Create(String),
    /// End the context.
    Close,
}

/// An answer of a context actor.
#[derive(Debug)]
pub enum ContextOutput {
    /// The channel ends of the new connection actor.
    Create(async_channel::Sender<ConnectionInput>, async_channel::Receiver<ConnectionOutput>),
    /// The context has ended.
    Done,
    /// The context failed and has ended.
    Error(RusqliteError),
}

/// A request to a connection actor.
#[derive(Debug)]
pub enum ConnectionInput {
    /// Run one statement with these positional parameters.
    Execute(String, Vec<SQLiteValue>),
    /// Start a statement actor on this query.
    Prepare(String),
    LastInsertRowId,
    Changes,
    /// Set the lock-wait timeout, in milliseconds.
    BusyTimeout(u64),
    Close,
}

/// An answer of a connection actor.
#[derive(Debug)]
pub enum ConnectionOutput {
    Prepare(Result<StatementLink, RusqliteError>),
    Execute(Result<usize, RusqliteError>),
    Changes(Result<u64, RusqliteError>),
    BusyTimeout(Result<(), RusqliteError>),
    LastInsertRowid(i64),
    /// The connection has ended.
    Done,
    /// The connection failed and has ended.
    Error(RusqliteError),
}

/// A request to a statement actor.
#[derive(Debug)]
pub enum StmtInput {
    /// Hand over up to this many rows.
    StepBy(usize),
    ClearBindings,
    CloneAndReset,
    /// Bind a value at a one-based position.
    Bind(usize, SQLiteValue),
    BindParameterCount,
    ColumnNames,
    ColumnName(usize),
    ColumnCount,
    Close,
}

/// An answer of a statement actor.
#[derive(Debug)]
pub enum StmtOutput {
    Rows(Result<Vec<Vec<SQLiteValue>>, RusqliteError>),
    ClearBindings(Result<bool, RusqliteError>),
    CloneAndReset(Result<StatementLink, RusqliteError>),
    Bind(Result<(), RusqliteError>),
    BindParameterCount(Result<usize, RusqliteError>),
    ColumnNames(Result<Vec<String>, RusqliteError>),
    ColumnName(Result<String, RusqliteError>),
    ColumnCount(Result<usize, RusqliteError>),
    /// The statement has ended.
    Done,
    /// The statement failed and has ended.
    Error(RusqliteError),
}

} // verus!
