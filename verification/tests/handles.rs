use async_channel::{unbounded, Receiver, Sender};
use rusqlite_async::actor::{cloned, prepared};
use rusqlite_async::connection::{
    bind, bind_parameter_count, bind_result, busy_timeout_result, changes, changes_result,
    check_connection_consistency, check_statement_consistency, clear_bindings, clone_and_reset,
    close, close_result, column_count, column_name, column_names, connection_answer,
    context_answer,
    created_connection, do_conn, do_stmt, execute, execute_result, finalize, gather,
    gathered_rows, last_insert_rowid, libversion, open_connection, prepare, prepare_result,
    request_close, set_busy_timeout, statement_answer, step_by, step_by_result, Context,
    VirtualConnection, VirtualStatement,
};
use rusqlite_async::error::RusqliteError;
use rusqlite_async::messages::{
    ConnectionInput, ConnectionOutput, ContextInput, ContextOutput, StmtInput, StmtOutput,
};
use rusqlite_async::value::SQLiteValue;

struct ContextEnds {
    requests: Receiver<ContextInput>,
    answers: Sender<ContextOutput>,
}

struct ConnectionEnds {
    requests: Receiver<ConnectionInput>,
    answers: Sender<ConnectionOutput>,
}

struct StatementEnds {
    requests: Receiver<StmtInput>,
    answers: Sender<StmtOutput>,
}

fn context(id: u128) -> (Context, ContextEnds) {
    let (sender, requests) = unbounded();
    let (answers, receiver) = unbounded();
    let ctx = Context::with_identity("home".to_string(), sender, receiver, id);
    (ctx, ContextEnds { requests, answers })
}

fn connection(id: u128, context: u128) -> (VirtualConnection, ConnectionEnds) {
    let (sender, requests) = unbounded();
    let (answers, receiver) = unbounded();
    let conn = VirtualConnection::with_identity(sender, receiver, id, context);
    (conn, ConnectionEnds { requests, answers })
}

fn statement(connection: u128, context: u128) -> (VirtualStatement, StatementEnds) {
    let (sender, requests) = unbounded();
    let (answers, receiver) = unbounded();
    let stmt = VirtualStatement::with_identity(sender, receiver, connection, context);
    (stmt, StatementEnds { requests, answers })
}

fn inconsistency<T: std::fmt::Debug>(result: Result<T, RusqliteError>) -> String {
    match result {
        Err(RusqliteError::ConsistencyError(reason)) => reason,
        other => panic!("unexpected result {:?}", other),
    }
}

fn disconnection<T: std::fmt::Debug>(result: Result<T, RusqliteError>) -> String {
    match result {
        Err(RusqliteError::CommunicationError(reason)) => reason,
        other => panic!("unexpected result {:?}", other),
    }
}

#[test]
fn handles_that_belong_together_pass_the_check() {
    let (ctx, _c) = context(1);
    let (conn, _n) = connection(2, 1);
    let (stmt, _s) = statement(2, 1);
    assert!(check_connection_consistency(&ctx, &conn).is_ok());
    assert!(check_statement_consistency(&ctx, &conn, &stmt).is_ok());
    assert_eq!(ctx.identity(), 1);
    assert_eq!(conn.identity(), 2);
    assert_eq!(conn.context(), 1);
    assert_eq!(stmt.connection(), 2);
    assert_eq!(stmt.context(), 1);
    assert_eq!(ctx.home(), "home");
}

#[test]
fn a_connection_of_another_context_fails_the_check() {
    let (ctx, _c) = context(1);
    let (conn, _n) = connection(2, 9);
    assert_eq!(
        inconsistency(check_connection_consistency(&ctx, &conn)),
        "Connection's context isn't consistent"
    );
    let (stmt, _s) = statement(2, 1);
    assert_eq!(
        inconsistency(check_statement_consistency(&ctx, &conn, &stmt)),
        "Connection's context isn't consistent"
    );
}

#[test]
fn a_statement_of_another_connection_fails_the_check() {
    let (ctx, _c) = context(1);
    let (conn, _n) = connection(2, 1);
    let (stmt, _s) = statement(3, 1);
    assert_eq!(
        inconsistency(check_statement_consistency(&ctx, &conn, &stmt)),
        "Statement's connection isn't consistent"
    );
}

#[test]
fn a_statement_of_another_context_fails_the_check() {
    let (ctx, _c) = context(1);
    let (conn, _n) = connection(2, 1);
    let (stmt, _s) = statement(2, 7);
    assert_eq!(
        inconsistency(check_statement_consistency(&ctx, &conn, &stmt)),
        "Statement's context isn't consistent"
    );
}

#[test]
fn every_call_on_a_statement_of_another_context_fails_before_anything_is_sent() {
    let (ctx, _c) = context(1);
    let (conn, conn_ends) = connection(2, 1);
    let (stmt, stmt_ends) = statement(2, 7);
    let reason = "Statement's context isn't consistent";
    assert_eq!(inconsistency(bind(&ctx, &conn, &stmt, 1, SQLiteValue::Null)), reason);
    assert_eq!(inconsistency(column_names(&ctx, &conn, &stmt)), reason);
    assert_eq!(inconsistency(column_count(&ctx, &conn, &stmt)), reason);
    assert_eq!(inconsistency(column_name(&ctx, &conn, &stmt, 0)), reason);
    assert_eq!(inconsistency(clear_bindings(&ctx, &conn, &stmt)), reason);
    assert_eq!(inconsistency(clone_and_reset(&ctx, &conn, &stmt)), reason);
    assert_eq!(inconsistency(bind_parameter_count(&ctx, &conn, &stmt)), reason);
    assert_eq!(inconsistency(finalize(&ctx, &conn, &stmt)), reason);
    assert_eq!(inconsistency(step_by(&ctx, &conn, &stmt, 1)), reason);
    assert_eq!(inconsistency(step_by(&ctx, &conn, &stmt, 0)), reason);
    assert_eq!(inconsistency(do_stmt(&ctx, &conn, &stmt, StmtInput::Close)), reason);
    assert!(stmt_ends.requests.is_empty());
    assert!(conn_ends.requests.is_empty());
}

#[test]
fn every_call_on_a_connection_of_another_context_fails_before_anything_is_sent() {
    let (ctx, _c) = context(1);
    let (conn, conn_ends) = connection(2, 3);
    let reason = "Connection's context isn't consistent";
    assert_eq!(inconsistency(set_busy_timeout(&ctx, &conn, 5)), reason);
    assert_eq!(inconsistency(prepare(&ctx, &conn, "SELECT 1")), reason);
    assert_eq!(inconsistency(execute(&ctx, &conn, "SELECT 1", vec![])), reason);
    assert_eq!(inconsistency(close(&ctx, &conn)), reason);
    assert_eq!(inconsistency(last_insert_rowid(&ctx, &conn)), reason);
    assert_eq!(inconsistency(changes(&ctx, &conn)), reason);
    assert_eq!(inconsistency(do_conn(&ctx, &conn, ConnectionInput::Close)), reason);
    assert!(conn_ends.requests.is_empty());
}

#[test]
fn a_call_on_a_connection_whose_context_is_gone_fails_and_does_not_hang() {
    let (ctx, ctx_ends) = context(1);
    let (conn, conn_ends) = connection(2, 1);
    let (stmt, stmt_ends) = statement(2, 1);
    drop(ctx_ends);
    drop(conn_ends);
    drop(stmt_ends);
    assert_eq!(disconnection(execute(&ctx, &conn, "SELECT 1", vec![])), "RecvError");
    assert_eq!(disconnection(prepare(&ctx, &conn, "SELECT 1")), "RecvError");
    assert_eq!(disconnection(changes(&ctx, &conn)), "RecvError");
    assert_eq!(disconnection(close(&ctx, &conn)), "RecvError");
    assert_eq!(disconnection(step_by(&ctx, &conn, &stmt, 3)), "RecvError");
    assert_eq!(disconnection(finalize(&ctx, &conn, &stmt)), "RecvError");
    assert_eq!(disconnection(open_connection(&ctx, "file.db".to_string())), "SendError(..)");
    assert!(!request_close(&ctx));
}

#[test]
fn a_call_sends_one_request_and_takes_one_answer() {
    let (ctx, _c) = context(1);
    let (conn, ends) = connection(2, 1);
    ends.answers.try_send(ConnectionOutput::Execute(Ok(3))).expect("queued");
    ends.answers.try_send(ConnectionOutput::Changes(Ok(4))).expect("queued");
    let params = vec![SQLiteValue::Integer(8)];
    assert_eq!(execute(&ctx, &conn, "UPDATE t SET v = ?1", params).expect("answered"), 3);
    match ends.requests.try_recv().expect("one request") {
        ConnectionInput::Execute(sql, params) => {
            assert_eq!(sql, "UPDATE t SET v = ?1");
            assert_eq!(format!("{:?}", params), "[Integer(8)]");
        }
        other => panic!("unexpected request {:?}", other),
    }
    assert!(ends.requests.is_empty());
    assert_eq!(ends.answers.len(), 1);
    assert_eq!(changes(&ctx, &conn).expect("answered"), 4);
    assert!(matches!(ends.requests.try_recv(), Ok(ConnectionInput::Changes)));
}

#[test]
fn the_calls_on_a_connection_send_their_requests() {
    let (ctx, _c) = context(1);
    let (conn, ends) = connection(2, 1);
    ends.answers.try_send(ConnectionOutput::BusyTimeout(Ok(()))).expect("queued");
    ends.answers.try_send(ConnectionOutput::LastInsertRowid(17)).expect("queued");
    ends.answers.try_send(ConnectionOutput::Done).expect("queued");
    assert!(set_busy_timeout(&ctx, &conn, 500).is_ok());
    assert_eq!(last_insert_rowid(&ctx, &conn).expect("answered"), 17);
    assert!(close(&ctx, &conn).is_ok());
    assert!(matches!(ends.requests.try_recv(), Ok(ConnectionInput::BusyTimeout(500))));
    assert!(matches!(ends.requests.try_recv(), Ok(ConnectionInput::LastInsertRowId)));
    assert!(matches!(ends.requests.try_recv(), Ok(ConnectionInput::Close)));
}

#[test]
fn a_prepared_statement_belongs_to_its_connection_and_context() {
    let (ctx, _c) = context(1);
    let (conn, ends) = connection(2, 1);
    let (sender, requests) = unbounded::<StmtInput>();
    let (answers, receiver) = unbounded::<StmtOutput>();
    ends.answers.try_send(prepared(sender, receiver)).expect("queued");
    let stmt = prepare(&ctx, &conn, "SELECT 1").expect("prepared");
    assert_eq!(stmt.connection(), 2);
    assert_eq!(stmt.context(), 1);
    assert!(matches!(ends.requests.try_recv(), Ok(ConnectionInput::Prepare(q)) if q == "SELECT 1"));
    answers.try_send(StmtOutput::ColumnCount(Ok(1))).expect("queued");
    assert_eq!(column_count(&ctx, &conn, &stmt).expect("answered"), 1);
    assert!(matches!(requests.try_recv(), Ok(StmtInput::ColumnCount)));
}

#[test]
fn a_copied_statement_belongs_to_the_same_owners() {
    let (ctx, _c) = context(1);
    let (conn, _n) = connection(2, 1);
    let (stmt, ends) = statement(2, 1);
    let (sender, requests) = unbounded::<StmtInput>();
    let (answers, receiver) = unbounded::<StmtOutput>();
    ends.answers.try_send(cloned(sender, receiver)).expect("queued");
    let copy = clone_and_reset(&ctx, &conn, &stmt).expect("copied");
    assert_eq!(copy.connection(), 2);
    assert_eq!(copy.context(), 1);
    assert!(matches!(ends.requests.try_recv(), Ok(StmtInput::CloneAndReset)));
    answers.try_send(StmtOutput::Done).expect("queued");
    assert!(finalize(&ctx, &conn, &copy).is_ok());
    assert!(matches!(requests.try_recv(), Ok(StmtInput::Close)));
    assert!(ends.requests.is_empty());
}

#[test]
fn the_calls_on_a_statement_send_their_requests() {
    let (ctx, _c) = context(1);
    let (conn, _n) = connection(2, 1);
    let (stmt, ends) = statement(2, 1);
    ends.answers.try_send(StmtOutput::Bind(Ok(()))).expect("queued");
    ends.answers.try_send(StmtOutput::ColumnNames(Ok(vec!["a".to_string()]))).expect("queued");
    ends.answers.try_send(StmtOutput::ColumnName(Ok("a".to_string()))).expect("queued");
    ends.answers.try_send(StmtOutput::ClearBindings(Ok(true))).expect("queued");
    ends.answers.try_send(StmtOutput::BindParameterCount(Ok(2))).expect("queued");
    assert!(bind(&ctx, &conn, &stmt, 2, SQLiteValue::Text("x".to_string())).is_ok());
    assert_eq!(column_names(&ctx, &conn, &stmt).expect("answered"), vec!["a".to_string()]);
    assert_eq!(column_name(&ctx, &conn, &stmt, 0).expect("answered"), "a");
    assert!(clear_bindings(&ctx, &conn, &stmt).expect("answered"));
    assert_eq!(bind_parameter_count(&ctx, &conn, &stmt).expect("answered"), 2);
    assert!(matches!(
        ends.requests.try_recv(),
        Ok(StmtInput::Bind(2, SQLiteValue::Text(s))) if s == "x"
    ));
    assert!(matches!(ends.requests.try_recv(), Ok(StmtInput::ColumnNames)));
    assert!(matches!(ends.requests.try_recv(), Ok(StmtInput::ColumnName(0))));
    assert!(matches!(ends.requests.try_recv(), Ok(StmtInput::ClearBindings)));
    assert!(matches!(ends.requests.try_recv(), Ok(StmtInput::BindParameterCount)));
}

#[test]
fn step_by_gives_a_batch_or_the_end() {
    let (ctx, _c) = context(1);
    let (conn, _n) = connection(2, 1);
    let (stmt, ends) = statement(2, 1);
    ends.answers
        .try_send(StmtOutput::Rows(Ok(vec![vec![SQLiteValue::Integer(2)]])))
        .expect("queued");
    ends.answers.try_send(StmtOutput::Done).expect("queued");
    let batch = step_by(&ctx, &conn, &stmt, 1).expect("answered").expect("a batch");
    assert_eq!(format!("{:?}", batch), "[[Integer(2)]]");
    assert!(step_by(&ctx, &conn, &stmt, 1).expect("answered").is_none());
    assert!(matches!(ends.requests.try_recv(), Ok(StmtInput::StepBy(1))));
    assert!(matches!(ends.requests.try_recv(), Ok(StmtInput::StepBy(1))));
}

#[test]
fn step_by_zero_is_refused_before_anything_is_sent() {
    let (ctx, _c) = context(1);
    let (conn, _n) = connection(2, 1);
    let (stmt, ends) = statement(2, 1);
    ends.answers
        .try_send(StmtOutput::Rows(Ok(vec![vec![SQLiteValue::Integer(2)]])))
        .expect("queued");
    match step_by(&ctx, &conn, &stmt, 0) {
        Err(RusqliteError::UserError(reason)) => assert_eq!(reason, "Cannot step by 0"),
        other => panic!("unexpected result {:?}", other),
    }
    assert!(ends.requests.is_empty());
    assert_eq!(ends.answers.len(), 1);
    let batch = step_by(&ctx, &conn, &stmt, 1).expect("answered").expect("a batch");
    assert_eq!(format!("{:?}", batch), "[[Integer(2)]]");
}

#[test]
fn a_failure_of_the_actor_is_the_failure_of_the_call() {
    let (ctx, _c) = context(1);
    let (conn, conn_ends) = connection(2, 1);
    let (stmt, stmt_ends) = statement(2, 1);
    conn_ends
        .answers
        .try_send(ConnectionOutput::Error(RusqliteError::IoError("gone".to_string())))
        .expect("queued");
    assert!(matches!(
        execute(&ctx, &conn, "SELECT 1", vec![]),
        Err(RusqliteError::IoError(reason)) if reason == "gone"
    ));
    stmt_ends
        .answers
        .try_send(StmtOutput::Error(RusqliteError::RusqliteError(rusqlite::Error::InvalidQuery)))
        .expect("queued");
    assert!(matches!(
        step_by(&ctx, &conn, &stmt, 1),
        Err(RusqliteError::RusqliteError(rusqlite::Error::InvalidQuery))
    ));
    stmt_ends
        .answers
        .try_send(StmtOutput::Bind(Err(RusqliteError::UserError("no".to_string()))))
        .expect("queued");
    assert!(matches!(
        bind(&ctx, &conn, &stmt, 1, SQLiteValue::Null),
        Err(RusqliteError::UserError(reason)) if reason == "no"
    ));
}

#[test]
fn an_answer_to_another_request_is_a_failure_of_communication() {
    let (ctx, _c) = context(1);
    let (conn, conn_ends) = connection(2, 1);
    let (stmt, stmt_ends) = statement(2, 1);
    conn_ends.answers.try_send(ConnectionOutput::Changes(Ok(1))).expect("queued");
    assert_eq!(disconnection(execute(&ctx, &conn, "SELECT 1", vec![])), "Unexpected answer");
    stmt_ends.answers.try_send(StmtOutput::ColumnCount(Ok(1))).expect("queued");
    assert_eq!(disconnection(step_by(&ctx, &conn, &stmt, 1)), "Unexpected answer");
    assert_eq!(disconnection(busy_timeout_result(ConnectionOutput::Done)), "Unexpected answer");
    assert_eq!(
        disconnection(prepare_result(ConnectionOutput::Done, 1, 2)),
        "Unexpected answer"
    );
    assert_eq!(disconnection(execute_result(ConnectionOutput::Done)), "Unexpected answer");
    assert_eq!(
        disconnection(close_result(ConnectionOutput::Changes(Ok(0)))),
        "Unexpected answer"
    );
    assert_eq!(disconnection(changes_result(ConnectionOutput::Done)), "Unexpected answer");
    assert_eq!(disconnection(bind_result(StmtOutput::Done)), "Unexpected answer");
    assert_eq!(
        disconnection(step_by_result(StmtOutput::Bind(Ok(())))),
        "Unexpected answer"
    );
}

#[test]
fn the_answer_of_an_actor_is_passed_on_or_ends_the_call() {
    assert_eq!(disconnection(context_answer(None)), "RecvError");
    assert!(matches!(context_answer(Some(ContextOutput::Done)), Ok(ContextOutput::Done)));
    assert!(matches!(
        context_answer(Some(ContextOutput::Error(RusqliteError::IoError(String::new())))),
        Err(RusqliteError::IoError(_))
    ));
    assert_eq!(disconnection(connection_answer(None)), "RecvError");
    assert_eq!(disconnection(statement_answer(None)), "RecvError");
    assert!(matches!(
        connection_answer(Some(ConnectionOutput::Changes(Ok(1)))),
        Ok(ConnectionOutput::Changes(Ok(1)))
    ));
    assert!(matches!(
        connection_answer(Some(ConnectionOutput::Error(RusqliteError::UserError(String::new())))),
        Err(RusqliteError::UserError(_))
    ));
    assert!(matches!(statement_answer(Some(StmtOutput::Done)), Ok(StmtOutput::Done)));
    assert!(matches!(
        statement_answer(Some(StmtOutput::Error(RusqliteError::IoError(String::new())))),
        Err(RusqliteError::IoError(_))
    ));
}

#[test]
fn a_context_is_asked_to_open_a_database() {
    let (ctx, ends) = context(5);
    let (sender, requests) = unbounded::<ConnectionInput>();
    let (answers, receiver) = unbounded::<ConnectionOutput>();
    ends.answers.try_send(ContextOutput::Create(sender, receiver)).expect("queued");
    let conn = open_connection(&ctx, "home/Yg/Zg.db".to_string()).expect("opened");
    assert_eq!(conn.context(), 5);
    assert!(check_connection_consistency(&ctx, &conn).is_ok());
    assert!(matches!(
        ends.requests.try_recv(),
        Ok(ContextInput::Create(file)) if file == "home/Yg/Zg.db"
    ));
    answers.try_send(ConnectionOutput::Changes(Ok(0))).expect("queued");
    assert_eq!(changes(&ctx, &conn).expect("answered"), 0);
    assert!(matches!(requests.try_recv(), Ok(ConnectionInput::Changes)));
}

#[test]
fn two_connections_of_one_context_differ() {
    let (ctx, ends) = context(5);
    for _ in 0..2 {
        let (sender, _requests) = unbounded::<ConnectionInput>();
        let (_answers, receiver) = unbounded::<ConnectionOutput>();
        ends.answers.try_send(ContextOutput::Create(sender, receiver)).expect("queued");
    }
    let first = open_connection(&ctx, "a".to_string()).expect("opened");
    let second = open_connection(&ctx, "b".to_string()).expect("opened");
    assert_ne!(first.identity(), second.identity());
}

#[test]
fn a_context_that_fails_to_open_fails_the_call() {
    let (ctx, ends) = context(5);
    ends.answers
        .try_send(ContextOutput::Error(RusqliteError::RusqliteError(
            rusqlite::Error::InvalidQuery,
        )))
        .expect("queued");
    assert!(matches!(
        open_connection(&ctx, "a".to_string()),
        Err(RusqliteError::RusqliteError(rusqlite::Error::InvalidQuery))
    ));
    assert_eq!(
        disconnection(created_connection(ContextOutput::Done, 1, 2)),
        "Unexpected answer"
    );
}

#[test]
fn a_context_is_asked_to_close() {
    let (ctx, ends) = context(5);
    assert!(request_close(&ctx));
    assert!(matches!(ends.requests.try_recv(), Ok(ContextInput::Close)));
}

#[test]
fn a_new_context_has_an_identity_of_its_own() {
    let (sender, _requests) = unbounded::<ContextInput>();
    let (_answers, receiver) = unbounded::<ContextOutput>();
    let first = Context::new("home".to_string(), sender, receiver);
    let (sender, _requests) = unbounded::<ContextInput>();
    let (_answers, receiver) = unbounded::<ContextOutput>();
    let second = Context::new("home".to_string(), sender, receiver);
    assert_ne!(first.identity(), second.identity());
    assert_eq!(first.home(), "home");
}

#[test]
fn the_version_of_the_engine_is_reported() {
    let (ctx, _c) = context(1);
    assert_eq!(libversion(&ctx), rusqlite::version());
}

#[test]
fn batches_are_gathered_until_the_end() {
    let mut gathered: Vec<Vec<SQLiteValue>> = Vec::new();
    assert!(gather(&mut gathered, Some(vec![vec![SQLiteValue::Integer(1)]])));
    assert!(gather(
        &mut gathered,
        Some(vec![vec![SQLiteValue::Integer(2)], vec![SQLiteValue::Integer(3)]])
    ));
    assert!(!gather(&mut gathered, None));
    assert_eq!(format!("{:?}", gathered), "[[Integer(1)], [Integer(2)], [Integer(3)]]");
    let rows = gathered_rows(gathered).expect("rows");
    assert_eq!(rows.len(), 3);
    assert!(gathered_rows(Vec::new()).is_none());
}

#[test]
fn a_context_that_is_gone_after_the_request_fails_the_call() {
    let (ctx, ends) = context(5);
    drop(ends.answers);
    assert_eq!(disconnection(open_connection(&ctx, "a".to_string())), "RecvError");
    assert!(matches!(ends.requests.try_recv(), Ok(ContextInput::Create(file)) if file == "a"));
}
