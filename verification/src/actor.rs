//! The connection actor and the context actor: what each does with a request.
//!
//! A connection actor owns one open database file and serves its requests one
//! after the other. A context actor opens database files and starts a
//! connection actor on each. Their tasks receive a request, ask the functions
//! here what to do, and do it.

use vstd::prelude::*;
use crate::channel::StatementLink;
use crate::engine::{
    connection_busy_timeout,
    connection_changes,
    connection_last_insert_rowid,
    execute_sql,
    open_database,
    MAX_BUSY_TIMEOUT_MS,
};
use crate::error::{refused_with, user_error, RusqliteError};
use crate::messages::{
    ConnectionInput,
    ConnectionOutput,
    ContextInput,
    ContextOutput,
    StmtInput,
    StmtOutput,
};
use crate::value::{engine_value, SQLiteValue};

verus! {

/// What the task of a connection actor does after a request.
#[derive(Debug)]
pub enum ConnectionReaction {
    /// Send the answer and wait for the next request.
    Reply(ConnectionOutput),
    /// Start a statement actor on this query, send its channel ends as the
    /// answer, and wait for the next request.
    Spawn(String),
    /// Send the answer and end.
    Stop(ConnectionOutput),
}

/// What the task of a context actor does after a request.
#[derive(Debug)]
pub enum ContextReaction {
    /// Start a connection actor on this open database, send its channel ends
    /// as the answer, and wait for the next request.
    Start(rusqlite::Connection),
    /// Send the answer and end.
    Stop(ContextOutput),
}

/// The answer to a request to run a statement, from what the engine returned.
pub fn execute_answer(changed: Result<usize, rusqlite::Error>) -> (output: ConnectionOutput)
    ensures
        match changed {
            Ok(n) => output matches ConnectionOutput::Execute(Ok(m)) && m == n,
            Err(e) => output matches ConnectionOutput::Execute(
                Err(RusqliteError::RusqliteError(f)),
            ) && f == e,
        },
{
    match changed {
        Ok(n) => ConnectionOutput::Execute(Ok(n)),
        Err(e) => ConnectionOutput::Execute(Err(RusqliteError::RusqliteError(e))),
    }
}

/// The answer to a request to set the lock-wait timeout, from what the engine
/// returned.
pub fn busy_timeout_answer(set: Result<(), rusqlite::Error>) -> (output: ConnectionOutput)
    ensures
        match set {
            Ok(_) => output matches ConnectionOutput::BusyTimeout(Ok(_)),
            Err(e) => output matches ConnectionOutput::BusyTimeout(
                Err(RusqliteError::RusqliteError(f)),
            ) && f == e,
        },
{
    match set {
        Ok(()) => ConnectionOutput::BusyTimeout(Ok(())),
        Err(e) => ConnectionOutput::BusyTimeout(Err(RusqliteError::RusqliteError(e))),
    }
}

/// The engine's form of each parameter, in order.
fn engine_values(params: &Vec<SQLiteValue>) -> (converted: Vec<rusqlite::types::Value>)
    ensures
        converted@.len() == params@.len(),
{
    let mut converted: Vec<rusqlite::types::Value> = Vec::new();
    let mut i: usize = 0;
    while i < params.len()
        invariant
            i <= params.len(),
            converted@.len() == i,
        decreases params.len() - i,
    {
        converted.push(engine_value(&params[i]));
        i = i + 1;
    }
    converted
}

/// What a connection actor does with each request. A statement is run and a
/// timeout is set by the engine, and the answer carries what the engine
/// returned; a timeout beyond what the engine can count is refused without
/// asking it.
pub open spec fn served_connection(input: ConnectionInput, reaction: ConnectionReaction) -> bool {
    match input {
        ConnectionInput::Execute(_, _) => reaction matches ConnectionReaction::Reply(
            ConnectionOutput::Execute(changed),
        ) && (changed matches Err(e) ==> e.is_engine()),
        ConnectionInput::Prepare(query) => reaction matches ConnectionReaction::Spawn(q) && q@
            == query@,
        ConnectionInput::LastInsertRowId => reaction matches ConnectionReaction::Reply(
            ConnectionOutput::LastInsertRowid(_),
        ),
        ConnectionInput::Changes => reaction matches ConnectionReaction::Reply(
            ConnectionOutput::Changes(Ok(_)),
        ),
        ConnectionInput::BusyTimeout(millis) => reaction matches ConnectionReaction::Reply(
            ConnectionOutput::BusyTimeout(set),
        ) && (set matches Err(e) ==> if millis > MAX_BUSY_TIMEOUT_MS {
            refused_with(e, "Timeout is too large"@)
        } else {
            e.is_engine()
        }) && (millis > MAX_BUSY_TIMEOUT_MS ==> set is Err),
        ConnectionInput::Close => reaction matches ConnectionReaction::Stop(
            ConnectionOutput::Done,
        ),
    }
}

/// Serves one request of a connection actor.
pub fn serve_connection(conn: &rusqlite::Connection, input: ConnectionInput) -> (reaction:
    ConnectionReaction)
    ensures
        served_connection(input, reaction),
{
    match input {
        ConnectionInput::Execute(query, params) => {
            let values = engine_values(&params);
            ConnectionReaction::Reply(execute_answer(execute_sql(conn, query.as_str(), &values)))
        },
        ConnectionInput::Prepare(query) => ConnectionReaction::Spawn(query),
        ConnectionInput::LastInsertRowId => ConnectionReaction::Reply(
            ConnectionOutput::LastInsertRowid(connection_last_insert_rowid(conn)),
        ),
        ConnectionInput::Changes => ConnectionReaction::Reply(
            ConnectionOutput::Changes(Ok(connection_changes(conn))),
        ),
        ConnectionInput::BusyTimeout(millis) => {
            if millis > MAX_BUSY_TIMEOUT_MS {
                ConnectionReaction::Reply(
                    ConnectionOutput::BusyTimeout(Err(user_error("Timeout is too large"))),
                )
            } else {
                ConnectionReaction::Reply(
                    busy_timeout_answer(connection_busy_timeout(conn, millis)),
                )
            }
        },
        ConnectionInput::Close => ConnectionReaction::Stop(ConnectionOutput::Done),
    }
}

/// The answer that carries the channel ends of a new statement actor to the
/// caller of a prepare.
pub fn prepared(
    sender: async_channel::Sender<StmtInput>,
    receiver: async_channel::Receiver<StmtOutput>,
) -> (output: ConnectionOutput)
    ensures
        output matches ConnectionOutput::Prepare(Ok(_)),
{
    ConnectionOutput::Prepare(Ok(StatementLink::new(sender, receiver)))
}

/// The answer that carries the channel ends of the copy of a statement to
/// the caller of a clone.
pub fn cloned(
    sender: async_channel::Sender<StmtInput>,
    receiver: async_channel::Receiver<StmtOutput>,
) -> (output: StmtOutput)
    ensures
        output matches StmtOutput::CloneAndReset(Ok(_)),
{
    StmtOutput::CloneAndReset(Ok(StatementLink::new(sender, receiver)))
}

/// What a context actor does with each request: a file is opened by the
/// engine, and the actor goes on with the open database or ends with the
/// engine's failure; a close ends it.
pub open spec fn served_context(input: ContextInput, reaction: ContextReaction) -> bool {
    match input {
        ContextInput::Create(_) => reaction is Start || (reaction matches ContextReaction::Stop(
            ContextOutput::Error(e),
        ) && e.is_engine()),
        ContextInput::Close => reaction matches ContextReaction::Stop(ContextOutput::Done),
    }
}

/// What a context actor does once the engine has tried to open a file.
pub fn opened_reaction(opened: Result<rusqlite::Connection, rusqlite::Error>) -> (reaction:
    ContextReaction)
    ensures
        match opened {
            Ok(conn) => reaction matches ContextReaction::Start(c) && c == conn,
            Err(e) => reaction matches ContextReaction::Stop(
                ContextOutput::Error(RusqliteError::RusqliteError(f)),
            ) && f == e,
        },
{
    match opened {
        Ok(conn) => ContextReaction::Start(conn),
        Err(e) => ContextReaction::Stop(ContextOutput::Error(RusqliteError::RusqliteError(e))),
    }
}

/// Serves one request of a context actor.
pub fn serve_context(input: ContextInput) -> (reaction: ContextReaction)
    ensures
        served_context(input, reaction),
{
    match input {
        ContextInput::Create(file) => opened_reaction(open_database(file.as_str())),
        ContextInput::Close => ContextReaction::Stop(ContextOutput::Done),
    }
}

} // verus!
