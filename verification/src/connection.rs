//! The handles that callers hold, and the calls made through them.
//!
//! A handle holds the channel ends of its actor and the identities that tie
//! it to its owners. Every call first checks that the handles it is given
//! belong together, then sends one request and waits for one answer.

use vstd::prelude::*;
use vstd::bytes::{spec_u128_to_le_bytes, u128_to_le_bytes};
use crate::channel::{recv_blocking, send_blocking, StatementLink};
use crate::codec::{base64_encode, base64_text, fits_encoding};
use crate::engine::engine_version;
use crate::error::{refused_with, user_error, RusqliteError};
use crate::messages::{
    ConnectionInput,
    ConnectionOutput,
    ContextInput,
    ContextOutput,
    StmtInput,
    StmtOutput,
};
use crate::value::SQLiteValue;

verus! {

/// `Uuid::new_v4`, as a number: a random identity.
#[verifier::external_body]
fn fresh_identity() -> (identity: u128) {
    uuid::Uuid::new_v4().as_u128()
}

/// The text form of an identity: the encoding of its sixteen bytes, the
/// lowest first.
pub fn identity_text(identity: u128) -> (text: String)
    ensures
        text@ == base64_text(spec_u128_to_le_bytes(identity)),
{
    let bytes = u128_to_le_bytes(identity);
    assert(fits_encoding(16)) by {
        assert(usize::MAX >= 0xffff_ffff);
    }
    base64_encode(bytes.as_slice())
}

/// A fresh random identity in its text form.
pub fn generate_uuid() -> (text: String)
    ensures
        exists|identity: u128| text@ == base64_text(spec_u128_to_le_bytes(identity)),
{
    identity_text(fresh_identity())
}

/// The handle of a context: the owner of one executor thread and of one home
/// directory.
#[derive(Debug)]
pub struct Context {
    home: String,
    sender: async_channel::Sender<ContextInput>,
    receiver: async_channel::Receiver<ContextOutput>,
    uuid: u128,
}

/// The handle of a connection actor.
#[derive(Debug)]
pub struct VirtualConnection {
    sender: async_channel::Sender<ConnectionInput>,
    receiver: async_channel::Receiver<ConnectionOutput>,
    uuid: u128,
    context: u128,
}

/// The handle of a statement actor.
#[derive(Debug)]
pub struct VirtualStatement {
    link: StatementLink,
    connection: u128,
    context: u128,
}

impl Context {
    /// The identity of the context.
    pub closed spec fn id(&self) -> u128 {
        self.uuid
    }

    /// The home directory.
    pub closed spec fn home_path(&self) -> Seq<char> {
        self.home@
    }

    /// A handle with a given identity.
    pub fn with_identity(
        home: String,
        sender: async_channel::Sender<ContextInput>,
        receiver: async_channel::Receiver<ContextOutput>,
        uuid: u128,
    ) -> (ctx: Context)
        ensures
            ctx.id() == uuid,
            ctx.home_path() == home@,
    {
        Context { home, sender, receiver, uuid }
    }

    /// A handle with a fresh identity.
    pub fn new(
        home: String,
        sender: async_channel::Sender<ContextInput>,
        receiver: async_channel::Receiver<ContextOutput>,
    ) -> (ctx: Context)
        ensures
            ctx.home_path() == home@,
    {
        Context::with_identity(home, sender, receiver, fresh_identity())
    }

    /// The identity of the context.
    pub fn identity(&self) -> (uuid: u128)
        ensures
            uuid == self.id(),
    {
        self.uuid
    }

    /// The home directory.
    pub fn home(&self) -> (home: &str)
        ensures
            home@ == self.home_path(),
    {
        self.home.as_str()
    }
}

impl VirtualConnection {
    /// The identity of the connection.
    pub closed spec fn id(&self) -> u128 {
        self.uuid
    }

    /// The identity of the context that the connection was opened through.
    pub closed spec fn context_id(&self) -> u128 {
        self.context
    }

    /// A handle with a given identity, owned by the context `context`.
    pub fn with_identity(
        sender: async_channel::Sender<ConnectionInput>,
        receiver: async_channel::Receiver<ConnectionOutput>,
        uuid: u128,
        context: u128,
    ) -> (conn: VirtualConnection)
        ensures
            conn.id() == uuid,
            conn.context_id() == context,
    {
        VirtualConnection { sender, receiver, uuid, context }
    }

    /// The identity of the connection.
    pub fn identity(&self) -> (uuid: u128)
        ensures
            uuid == self.id(),
    {
        self.uuid
    }

    /// The identity of the owning context.
    pub fn context(&self) -> (uuid: u128)
        ensures
            uuid == self.context_id(),
    {
        self.context
    }
}

impl VirtualStatement {
    /// The identity of the connection that the statement was prepared on.
    pub closed spec fn connection_id(&self) -> u128 {
        self.connection
    }

    /// The identity of the context that the statement was prepared through.
    pub closed spec fn context_id(&self) -> u128 {
        self.context
    }

    /// A handle owned by the connection `connection` of the context `context`.
    pub fn with_identity(
        sender: async_channel::Sender<StmtInput>,
        receiver: async_channel::Receiver<StmtOutput>,
        connection: u128,
        context: u128,
    ) -> (stmt: VirtualStatement)
        ensures
            stmt.connection_id() == connection,
            stmt.context_id() == context,
    {
        VirtualStatement { link: StatementLink::new(sender, receiver), connection, context }
    }

    /// The identity of the owning connection.
    pub fn connection(&self) -> (uuid: u128)
        ensures
            uuid == self.connection_id(),
    {
        self.connection
    }

    /// The identity of the owning context.
    pub fn context(&self) -> (uuid: u128)
        ensures
            uuid == self.context_id(),
    {
        self.context
    }
}

/// Why a connection handle may not be used with a context, if it may not.
pub open spec fn connection_fault(ctx: &Context, conn: &VirtualConnection) -> Option<Seq<char>> {
    if conn.context_id() != ctx.id() {
        Some("Connection's context isn't consistent"@)
    } else {
        None
    }
}

/// Why a statement handle may not be used with a connection and a context,
/// if it may not.
pub open spec fn statement_fault(ctx: &Context, conn: &VirtualConnection, stmt: &VirtualStatement)
    -> Option<Seq<char>> {
    if conn.context_id() != ctx.id() {
        Some("Connection's context isn't consistent"@)
    } else if conn.id() != stmt.connection_id() {
        Some("Statement's connection isn't consistent"@)
    } else if ctx.id() != stmt.context_id() {
        Some("Statement's context isn't consistent"@)
    } else {
        None
    }
}

/// The call failed because the handles do not belong together.
pub open spec fn inconsistent<T>(result: Result<T, RusqliteError>, reason: Seq<char>) -> bool {
    result matches Err(RusqliteError::ConsistencyError(m)) && m@ == reason
}

/// The call failed because the actor is gone or out of step.
pub open spec fn disconnected<T>(result: Result<T, RusqliteError>, reason: Seq<char>) -> bool {
    result matches Err(RusqliteError::CommunicationError(m)) && m@ == reason
}

/// The call was refused.
pub open spec fn refused<T>(result: Result<T, RusqliteError>, reason: Seq<char>) -> bool {
    result matches Err(e) && refused_with(e, reason)
}

/// Checks that a connection handle belongs to a context.
pub fn check_connection_consistency(ctx: &Context, conn: &VirtualConnection) -> (checked: Result<
    (),
    RusqliteError,
>)
    ensures
        match connection_fault(ctx, conn) {
            Some(reason) => inconsistent(checked, reason),
            None => checked is Ok,
        },
{
    if conn.context != ctx.uuid {
        return Err(
            RusqliteError::ConsistencyError("Connection's context isn't consistent".to_owned()),
        );
    }
    Ok(())
}

/// Checks that a statement handle belongs to a connection and a context, and
/// the connection to the context.
pub fn check_statement_consistency(
    ctx: &Context,
    conn: &VirtualConnection,
    stmt: &VirtualStatement,
) -> (checked: Result<(), RusqliteError>)
    ensures
        match statement_fault(ctx, conn, stmt) {
            Some(reason) => inconsistent(checked, reason),
            None => checked is Ok,
        },
{
    match check_connection_consistency(ctx, conn) {
        Ok(()) => {},
        Err(e) => {
            return Err(e);
        },
    }
    if conn.uuid != stmt.connection {
        return Err(
            RusqliteError::ConsistencyError("Statement's connection isn't consistent".to_owned()),
        );
    }
    if ctx.uuid != stmt.context {
        return Err(
            RusqliteError::ConsistencyError("Statement's context isn't consistent".to_owned()),
        );
    }
    Ok(())
}

/// The version of the database engine.
pub fn libversion(ctx: &Context) -> (version: String) {
    engine_version()
}

/// The failure of a call whose answer is not one that its request can have.
fn unexpected<T>() -> (result: Result<T, RusqliteError>)
    ensures
        disconnected(result, "Unexpected answer"@),
{
    Err(RusqliteError::CommunicationError("Unexpected answer".to_owned()))
}

/// What a call makes of the answer of a connection actor: a closed channel
/// and a failure of the actor end the call, any other answer is passed on.
pub fn connection_answer(received: Option<ConnectionOutput>) -> (result: Result<
    ConnectionOutput,
    RusqliteError,
>)
    ensures
        match received {
            None => disconnected(result, "RecvError"@),
            Some(ConnectionOutput::Error(e)) => result == Err::<ConnectionOutput, RusqliteError>(
                e,
            ),
            Some(output) => result == Ok::<ConnectionOutput, RusqliteError>(output),
        },
{
    match received {
        None => Err(RusqliteError::CommunicationError("RecvError".to_owned())),
        Some(ConnectionOutput::Error(e)) => Err(e),
        Some(output) => Ok(output),
    }
}

/// What a call makes of the answer of a statement actor.
pub fn statement_answer(received: Option<StmtOutput>) -> (result: Result<
    StmtOutput,
    RusqliteError,
>)
    ensures
        match received {
            None => disconnected(result, "RecvError"@),
            Some(StmtOutput::Error(e)) => result == Err::<StmtOutput, RusqliteError>(e),
            Some(output) => result == Ok::<StmtOutput, RusqliteError>(output),
        },
{
    match received {
        None => Err(RusqliteError::CommunicationError("RecvError".to_owned())),
        Some(StmtOutput::Error(e)) => Err(e),
        Some(output) => Ok(output),
    }
}

/// What a call makes of the answer of a context actor.
pub fn context_answer(received: Option<ContextOutput>) -> (result: Result<
    ContextOutput,
    RusqliteError,
>)
    ensures
        match received {
            None => disconnected(result, "RecvError"@),
            Some(ContextOutput::Error(e)) => result == Err::<ContextOutput, RusqliteError>(e),
            Some(output) => result == Ok::<ContextOutput, RusqliteError>(output),
        },
{
    match received {
        None => Err(RusqliteError::CommunicationError("RecvError".to_owned())),
        Some(ContextOutput::Error(e)) => Err(e),
        Some(output) => Ok(output),
    }
}

/// Sends one request to a connection actor and waits for its answer. Handles
/// that do not belong together end the call before anything is sent.
pub fn do_conn(ctx: &Context, conn: &VirtualConnection, input: ConnectionInput) -> (result:
    Result<ConnectionOutput, RusqliteError>)
    ensures
        connection_fault(ctx, conn) matches Some(reason) ==> inconsistent(result, reason),
        result matches Ok(output) ==> !(output is Error),
{
    match check_connection_consistency(ctx, conn) {
        Ok(()) => {},
        Err(e) => {
            return Err(e);
        },
    }
    // A failed send shows as a failed receive.
    let _ = send_blocking(&conn.sender, input);
    connection_answer(recv_blocking(&conn.receiver))
}

/// Sends one request to a statement actor and waits for its answer. Handles
/// that do not belong together end the call before anything is sent.
pub fn do_stmt(
    ctx: &Context,
    conn: &VirtualConnection,
    stmt: &VirtualStatement,
    input: StmtInput,
) -> (result: Result<StmtOutput, RusqliteError>)
    ensures
        statement_fault(ctx, conn, stmt) matches Some(reason) ==> inconsistent(result, reason),
        result matches Ok(output) ==> !(output is Error),
{
    match check_statement_consistency(ctx, conn, stmt) {
        Ok(()) => {},
        Err(e) => {
            return Err(e);
        },
    }
    // A failed send shows as a failed receive.
    let _ = send_blocking(stmt.link.sender(), input);
    statement_answer(recv_blocking(stmt.link.receiver()))
}

/// What the answer to a request to open a database gives the caller.
pub fn created_connection(output: ContextOutput, uuid: u128, context: u128) -> (result: Result<
    VirtualConnection,
    RusqliteError,
>)
    ensures
        match output {
            ContextOutput::Create(_, _) => result matches Ok(conn) && conn.id() == uuid
                && conn.context_id() == context,
            ContextOutput::Error(e) => result == Err::<VirtualConnection, RusqliteError>(e),
            ContextOutput::Done => disconnected(result, "Unexpected answer"@),
        },
{
    match output {
        ContextOutput::Create(sender, receiver) => Ok(
            VirtualConnection::with_identity(sender, receiver, uuid, context),
        ),
        ContextOutput::Error(e) => Err(e),
        ContextOutput::Done => unexpected(),
    }
}

/// Asks a context to open the database file at `file` and to start a
/// connection actor on it. The handle that comes back belongs to the context.
pub fn open_connection(ctx: &Context, file: String) -> (result: Result<
    VirtualConnection,
    RusqliteError,
>)
    ensures
        result matches Ok(conn) ==> conn.context_id() == ctx.id(),
{
    if !send_blocking(&ctx.sender, ContextInput::Create(file)) {
        return Err(RusqliteError::CommunicationError("SendError(..)".to_owned()));
    }
    match context_answer(recv_blocking(&ctx.receiver)) {
        Ok(output) => created_connection(output, fresh_identity(), ctx.uuid),
        Err(e) => Err(e),
    }
}

/// Asks a context to end. Whether the request could be sent is returned and
/// may be ignored: a context that is gone has ended.
pub fn request_close(ctx: &Context) -> (sent: bool) {
    send_blocking(&ctx.sender, ContextInput::Close)
}

/// What the answer to a request to set the timeout gives the caller.
pub fn busy_timeout_result(output: ConnectionOutput) -> (result: Result<(), RusqliteError>)
    ensures
        match output {
            ConnectionOutput::BusyTimeout(set) => result == set,
            _ => disconnected(result, "Unexpected answer"@),
        },
{
    match output {
        ConnectionOutput::BusyTimeout(set) => set,
        _ => unexpected(),
    }
}

/// What the answer to a prepare gives the caller.
pub fn prepare_result(output: ConnectionOutput, connection: u128, context: u128) -> (result:
    Result<VirtualStatement, RusqliteError>)
    ensures
        match output {
            ConnectionOutput::Prepare(Ok(_)) => result matches Ok(stmt) && stmt.connection_id()
                == connection && stmt.context_id() == context,
            ConnectionOutput::Prepare(Err(e)) => result == Err::<VirtualStatement, RusqliteError>(
                e,
            ),
            _ => disconnected(result, "Unexpected answer"@),
        },
{
    match output {
        ConnectionOutput::Prepare(Ok(link)) => Ok(VirtualStatement { link, connection, context }),
        ConnectionOutput::Prepare(Err(e)) => Err(e),
        _ => unexpected(),
    }
}

/// What the answer to an execute gives the caller.
pub fn execute_result(output: ConnectionOutput) -> (result: Result<usize, RusqliteError>)
    ensures
        match output {
            ConnectionOutput::Execute(changed) => result == changed,
            _ => disconnected(result, "Unexpected answer"@),
        },
{
    match output {
        ConnectionOutput::Execute(changed) => changed,
        _ => unexpected(),
    }
}

/// What the answer to a close gives the caller.
pub fn close_result(output: ConnectionOutput) -> (result: Result<(), RusqliteError>)
    ensures
        match output {
            ConnectionOutput::Done => result is Ok,
            _ => disconnected(result, "Unexpected answer"@),
        },
{
    match output {
        ConnectionOutput::Done => Ok(()),
        _ => unexpected(),
    }
}

/// What the answer to a request for the last row id gives the caller.
pub fn last_insert_rowid_result(output: ConnectionOutput) -> (result: Result<i64, RusqliteError>)
    ensures
        match output {
            ConnectionOutput::LastInsertRowid(id) => result == Ok::<i64, RusqliteError>(id),
            _ => disconnected(result, "Unexpected answer"@),
        },
{
    match output {
        ConnectionOutput::LastInsertRowid(id) => Ok(id),
        _ => unexpected(),
    }
}

/// What the answer to a request for the changed rows gives the caller.
pub fn changes_result(output: ConnectionOutput) -> (result: Result<u64, RusqliteError>)
    ensures
        match output {
            ConnectionOutput::Changes(changed) => result == changed,
            _ => disconnected(result, "Unexpected answer"@),
        },
{
    match output {
        ConnectionOutput::Changes(changed) => changed,
        _ => unexpected(),
    }
}

/// Sets the lock-wait timeout of a connection, in milliseconds.
pub fn set_busy_timeout(ctx: &Context, conn: &VirtualConnection, timeout: u64) -> (result: Result<
    (),
    RusqliteError,
>)
    ensures
        connection_fault(ctx, conn) matches Some(reason) ==> inconsistent(result, reason),
{
    match do_conn(ctx, conn, ConnectionInput::BusyTimeout(timeout)) {
        Ok(output) => busy_timeout_result(output),
        Err(e) => Err(e),
    }
}

/// Starts a statement actor on a query. The handle that comes back belongs
/// to the connection and the context.
pub fn prepare(ctx: &Context, conn: &VirtualConnection, query: &str) -> (result: Result<
    VirtualStatement,
    RusqliteError,
>)
    ensures
        connection_fault(ctx, conn) matches Some(reason) ==> inconsistent(result, reason),
        result matches Ok(stmt) ==> statement_fault(ctx, conn, &stmt) is None,
{
    match do_conn(ctx, conn, ConnectionInput::Prepare(query.to_owned())) {
        Ok(output) => prepare_result(output, conn.uuid, ctx.uuid),
        Err(e) => Err(e),
    }
}

/// Runs one statement with positional parameters; gives the number of rows
/// it changed.
pub fn execute(ctx: &Context, conn: &VirtualConnection, query: &str, params: Vec<SQLiteValue>) -> (result:
    Result<usize, RusqliteError>)
    ensures
        connection_fault(ctx, conn) matches Some(reason) ==> inconsistent(result, reason),
{
    match do_conn(ctx, conn, ConnectionInput::Execute(query.to_owned(), params)) {
        Ok(output) => execute_result(output),
        Err(e) => Err(e),
    }
}

/// Ends a connection actor.
pub fn close(ctx: &Context, conn: &VirtualConnection) -> (result: Result<(), RusqliteError>)
    ensures
        connection_fault(ctx, conn) matches Some(reason) ==> inconsistent(result, reason),
{
    match do_conn(ctx, conn, ConnectionInput::Close) {
        Ok(output) => close_result(output),
        Err(e) => Err(e),
    }
}

/// The row id of the most recent insert on a connection.
pub fn last_insert_rowid(ctx: &Context, conn: &VirtualConnection) -> (result: Result<
    i64,
    RusqliteError,
>)
    ensures
        connection_fault(ctx, conn) matches Some(reason) ==> inconsistent(result, reason),
{
    match do_conn(ctx, conn, ConnectionInput::LastInsertRowId) {
        Ok(output) => last_insert_rowid_result(output),
        Err(e) => Err(e),
    }
}

/// The number of rows that the most recent statement on a connection changed.
pub fn changes(ctx: &Context, conn: &VirtualConnection) -> (result: Result<u64, RusqliteError>)
    ensures
        connection_fault(ctx, conn) matches Some(reason) ==> inconsistent(result, reason),
{
    match do_conn(ctx, conn, ConnectionInput::Changes) {
        Ok(output) => changes_result(output),
        Err(e) => Err(e),
    }
}

/// What the answer to a bind gives the caller.
pub fn bind_result(output: StmtOutput) -> (result: Result<(), RusqliteError>)
    ensures
        match output {
            StmtOutput::Bind(bound) => result == bound,
            _ => disconnected(result, "Unexpected answer"@),
        },
{
    match output {
        StmtOutput::Bind(bound) => bound,
        _ => unexpected(),
    }
}

/// What the answer to a request for the column names gives the caller.
pub fn column_names_result(output: StmtOutput) -> (result: Result<Vec<String>, RusqliteError>)
    ensures
        match output {
            StmtOutput::ColumnNames(names) => result == names,
            _ => disconnected(result, "Unexpected answer"@),
        },
{
    match output {
        StmtOutput::ColumnNames(names) => names,
        _ => unexpected(),
    }
}

/// What the answer to a request for the number of columns gives the caller.
pub fn column_count_result(output: StmtOutput) -> (result: Result<usize, RusqliteError>)
    ensures
        match output {
            StmtOutput::ColumnCount(count) => result == count,
            _ => disconnected(result, "Unexpected answer"@),
        },
{
    match output {
        StmtOutput::ColumnCount(count) => count,
        _ => unexpected(),
    }
}

/// What the answer to a request to clear the bindings gives the caller.
pub fn clear_bindings_result(output: StmtOutput) -> (result: Result<bool, RusqliteError>)
    ensures
        match output {
            StmtOutput::ClearBindings(cleared) => result == cleared,
            _ => disconnected(result, "Unexpected answer"@),
        },
{
    match output {
        StmtOutput::ClearBindings(cleared) => cleared,
        _ => unexpected(),
    }
}

/// What the answer to a request for a copy gives the caller.
pub fn clone_and_reset_result(output: StmtOutput, connection: u128, context: u128) -> (result:
    Result<VirtualStatement, RusqliteError>)
    ensures
        match output {
            StmtOutput::CloneAndReset(Ok(_)) => result matches Ok(stmt) && stmt.connection_id()
                == connection && stmt.context_id() == context,
            StmtOutput::CloneAndReset(Err(e)) => result == Err::<VirtualStatement, RusqliteError>(
                e,
            ),
            _ => disconnected(result, "Unexpected answer"@),
        },
{
    match output {
        StmtOutput::CloneAndReset(Ok(link)) => Ok(VirtualStatement { link, connection, context }),
        StmtOutput::CloneAndReset(Err(e)) => Err(e),
        _ => unexpected(),
    }
}

/// What the answer to a request for the number of parameters gives the
/// caller.
pub fn bind_parameter_count_result(output: StmtOutput) -> (result: Result<usize, RusqliteError>)
    ensures
        match output {
            StmtOutput::BindParameterCount(count) => result == count,
            _ => disconnected(result, "Unexpected answer"@),
        },
{
    match output {
        StmtOutput::BindParameterCount(count) => count,
        _ => unexpected(),
    }
}

/// What the answer to a request to end the statement gives the caller.
pub fn finalize_result(output: StmtOutput) -> (result: Result<(), RusqliteError>)
    ensures
        match output {
            StmtOutput::Done => result is Ok,
            _ => disconnected(result, "Unexpected answer"@),
        },
{
    match output {
        StmtOutput::Done => Ok(()),
        _ => unexpected(),
    }
}

/// What the answer to a request for rows gives the caller: a batch, or
/// `None` at the end of the results.
pub fn step_by_result(output: StmtOutput) -> (result: Result<
    Option<Vec<Vec<SQLiteValue>>>,
    RusqliteError,
>)
    ensures
        match output {
            StmtOutput::Done => result matches Ok(None),
            StmtOutput::Rows(Ok(rows)) => result matches Ok(Some(batch)) && batch == rows,
            StmtOutput::Rows(Err(e)) => result matches Err(f) && f == e,
            _ => disconnected(result, "Unexpected answer"@),
        },
{
    match output {
        StmtOutput::Done => Ok(None),
        StmtOutput::Rows(Ok(rows)) => Ok(Some(rows)),
        StmtOutput::Rows(Err(e)) => Err(e),
        _ => unexpected(),
    }
}

/// What the answer to a request for a column name gives the caller.
pub fn column_name_result(output: StmtOutput) -> (result: Result<String, RusqliteError>)
    ensures
        match output {
            StmtOutput::ColumnName(name) => result == name,
            _ => disconnected(result, "Unexpected answer"@),
        },
{
    match output {
        StmtOutput::ColumnName(name) => name,
        _ => unexpected(),
    }
}

/// Binds a value at a one-based position of a statement.
pub fn bind(
    ctx: &Context,
    conn: &VirtualConnection,
    stmt: &VirtualStatement,
    n: usize,
    value: SQLiteValue,
) -> (result: Result<(), RusqliteError>)
    ensures
        statement_fault(ctx, conn, stmt) matches Some(reason) ==> inconsistent(result, reason),
{
    match do_stmt(ctx, conn, stmt, StmtInput::Bind(n, value)) {
        Ok(output) => bind_result(output),
        Err(e) => Err(e),
    }
}

/// The names of the result columns of a statement.
pub fn column_names(ctx: &Context, conn: &VirtualConnection, stmt: &VirtualStatement) -> (result:
    Result<Vec<String>, RusqliteError>)
    ensures
        statement_fault(ctx, conn, stmt) matches Some(reason) ==> inconsistent(result, reason),
{
    match do_stmt(ctx, conn, stmt, StmtInput::ColumnNames) {
        Ok(output) => column_names_result(output),
        Err(e) => Err(e),
    }
}

/// The number of result columns of a statement.
pub fn column_count(ctx: &Context, conn: &VirtualConnection, stmt: &VirtualStatement) -> (result:
    Result<usize, RusqliteError>)
    ensures
        statement_fault(ctx, conn, stmt) matches Some(reason) ==> inconsistent(result, reason),
{
    match do_stmt(ctx, conn, stmt, StmtInput::ColumnCount) {
        Ok(output) => column_count_result(output),
        Err(e) => Err(e),
    }
}

/// Unbinds every parameter of a statement.
pub fn clear_bindings(ctx: &Context, conn: &VirtualConnection, stmt: &VirtualStatement) -> (result:
    Result<bool, RusqliteError>)
    ensures
        statement_fault(ctx, conn, stmt) matches Some(reason) ==> inconsistent(result, reason),
{
    match do_stmt(ctx, conn, stmt, StmtInput::ClearBindings) {
        Ok(output) => clear_bindings_result(output),
        Err(e) => Err(e),
    }
}

/// Starts a copy of a statement: the same query with the same parameters
/// bound, and a cursor of its own. The handle that comes back belongs to the
/// connection and the context.
pub fn clone_and_reset(ctx: &Context, conn: &VirtualConnection, stmt: &VirtualStatement) -> (result:
    Result<VirtualStatement, RusqliteError>)
    ensures
        statement_fault(ctx, conn, stmt) matches Some(reason) ==> inconsistent(result, reason),
        result matches Ok(copy) ==> statement_fault(ctx, conn, &copy) is None,
{
    match do_stmt(ctx, conn, stmt, StmtInput::CloneAndReset) {
        Ok(output) => clone_and_reset_result(output, conn.uuid, ctx.uuid),
        Err(e) => Err(e),
    }
}

/// The number of parameters of a statement.
pub fn bind_parameter_count(ctx: &Context, conn: &VirtualConnection, stmt: &VirtualStatement) -> (result:
    Result<usize, RusqliteError>)
    ensures
        statement_fault(ctx, conn, stmt) matches Some(reason) ==> inconsistent(result, reason),
{
    match do_stmt(ctx, conn, stmt, StmtInput::BindParameterCount) {
        Ok(output) => bind_parameter_count_result(output),
        Err(e) => Err(e),
    }
}

/// Ends a statement actor.
pub fn finalize(ctx: &Context, conn: &VirtualConnection, stmt: &VirtualStatement) -> (result:
    Result<(), RusqliteError>)
    ensures
        statement_fault(ctx, conn, stmt) matches Some(reason) ==> inconsistent(result, reason),
{
    match do_stmt(ctx, conn, stmt, StmtInput::Close) {
        Ok(output) => finalize_result(output),
        Err(e) => Err(e),
    }
}

/// Asks a statement for up to `n` more rows. Handles that do not belong
/// together and a size of zero end the call before anything is sent.
pub fn step_by(ctx: &Context, conn: &VirtualConnection, stmt: &VirtualStatement, n: usize) -> (result:
    Result<Option<Vec<Vec<SQLiteValue>>>, RusqliteError>)
    ensures
        match statement_fault(ctx, conn, stmt) {
            Some(reason) => inconsistent(result, reason),
            None => n == 0 ==> refused(result, "Cannot step by 0"@),
        },
{
    match check_statement_consistency(ctx, conn, stmt) {
        Ok(()) => {},
        Err(e) => {
            return Err(e);
        },
    }
    if n == 0 {
        return Err(user_error("Cannot step by 0"));
    }
    match do_stmt(ctx, conn, stmt, StmtInput::StepBy(n)) {
        Ok(output) => step_by_result(output),
        Err(e) => Err(e),
    }
}

/// The name of one result column of a statement; the empty name where there
/// is no such column.
pub fn column_name(ctx: &Context, conn: &VirtualConnection, stmt: &VirtualStatement, n: usize) -> (result:
    Result<String, RusqliteError>)
    ensures
        statement_fault(ctx, conn, stmt) matches Some(reason) ==> inconsistent(result, reason),
{
    match do_stmt(ctx, conn, stmt, StmtInput::ColumnName(n)) {
        Ok(output) => column_name_result(output),
        Err(e) => Err(e),
    }
}

/// Adds what one request for rows gave to the rows gathered so far. Returns
/// whether to ask again: a batch calls for another request, the end of the
/// results does not.
pub fn gather(gathered: &mut Vec<Vec<SQLiteValue>>, step: Option<Vec<Vec<SQLiteValue>>>) -> (again:
    bool)
    ensures
        match step {
            Some(batch) => again && final(gathered)@ == old(gathered)@ + batch@,
            None => !again && final(gathered)@ == old(gathered)@,
        },
{
    match step {
        Some(batch) => {
            let mut batch = batch;
            gathered.append(&mut batch);
            true
        },
        None => false,
    }
}

/// The rows gathered from a statement, or `None` where there are none.
pub fn gathered_rows(gathered: Vec<Vec<SQLiteValue>>) -> (rows: Option<Vec<Vec<SQLiteValue>>>)
    ensures
        match rows {
            Some(all) => all == gathered && gathered@.len() > 0,
            None => gathered@.len() == 0,
        },
{
    if gathered.len() == 0 {
        None
    } else {
        Some(gathered)
    }
}

} // verus!
