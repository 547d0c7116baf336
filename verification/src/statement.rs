//! The statement actor: one prepared statement and what it answers.
//!
//! The actor's task receives a request, asks [`StatementActor`] what to do,
//! does it, and waits for the next request. While a step round is unresolved
//! the cursor borrows the prepared statement, so the requests of that phase
//! are served without it.

use vstd::prelude::*;
use crate::bindings::{record, Bindings, Entry};
use crate::engine::{
    cursor_advance,
    cursor_statement,
    open_cursor,
    prepare_statement,
    row_column,
    statement_bind,
    statement_clear_bindings,
    statement_column_count,
    statement_column_names,
    statement_parameter_count,
    ColumnRead,
};
use crate::error::{refused_with, user_error, RusqliteError};
use crate::messages::{StmtInput, StmtOutput};
use crate::stepping::{
    absorb,
    decide_step,
    outcome_of,
    phase_after,
    step_decision,
    Fetched,
    Phase,
    Progress,
    ProgressView,
    Round,
    RoundEnd,
    StepDecision,
    StepOutcome,
};
use crate::value::{engine_value, rows_view, SQLiteValue, ValueView};

verus! {

/// What a statement actor keeps about its statement.
#[derive(Debug)]
pub struct StatementMeta {
    /// The text of the query.
    pub query: String,
    /// The names of the result columns, as last learnt from the engine.
    pub column_names: Vec<String>,
    /// How many parameters the query has.
    pub parameter_count: usize,
    /// The parameters bound at present.
    pub bound_values: Bindings,
}

/// What a copy of a statement starts from: the query and the parameters to
/// bind anew.
#[derive(Debug)]
pub struct StatementSeed {
    pub query: String,
    pub bound_values: Bindings,
}

/// What the actor's task does after a request.
#[derive(Debug)]
pub enum Reaction {
    /// Send the answer and wait for the next request.
    Reply(StmtOutput),
    /// Start a statement actor from the seed, send its channel ends as the
    /// answer, and wait for the next request.
    Spawn(StatementSeed),
    /// Run a round of this size against the cursor, opening it if no round
    /// is unresolved, and send what the round gives.
    Pull(usize),
    /// Send the answer and end.
    Stop(StmtOutput),
}

/// The value of a column, from what the engine read there: a text, else an
/// integer, else a real number, else a blob, and null where none was read.
pub open spec fn column_value(read: ColumnRead) -> ValueView {
    match read.text {
        Some(s) => ValueView::Text(s@),
        None => match read.integer {
            Some(n) => ValueView::Integer(n as int),
            None => match read.number {
                Some(r) => ValueView::Real(r@),
                None => match read.blob {
                    Some(b) => ValueView::Blob(b@),
                    None => ValueView::Null,
                },
            },
        },
    }
}

/// Chooses the value of a column from what the engine read there.
pub fn pick_value(read: ColumnRead) -> (value: SQLiteValue)
    ensures
        value@ == column_value(read),
{
    let ColumnRead { text, integer, number, blob } = read;
    if let Some(s) = text {
        SQLiteValue::Text(s)
    } else if let Some(n) = integer {
        SQLiteValue::Integer(n)
    } else if let Some(r) = number {
        SQLiteValue::Real(r)
    } else if let Some(b) = blob {
        SQLiteValue::Blob(b)
    } else {
        SQLiteValue::Null
    }
}

/// Reads the first `ncols` columns of a row.
pub fn row_to_vec(ncols: usize, row: &rusqlite::Row<'_>) -> (values: Vec<SQLiteValue>)
    ensures
        values@.len() == ncols,
{
    let mut values: Vec<SQLiteValue> = Vec::new();
    let mut i: usize = 0;
    while i < ncols
        invariant
            i <= ncols,
            values@.len() == i,
        decreases ncols - i,
    {
        values.push(pick_value(row_column(row, i)));
        i = i + 1;
    }
    values
}

/// Copies a list of names.
pub fn clone_names(names: &Vec<String>) -> (copy: Vec<String>)
    ensures
        copy@ == names@,
{
    let mut copy: Vec<String> = Vec::new();
    let mut i: usize = 0;
    while i < names.len()
        invariant
            i <= names.len(),
            copy@.len() == i,
            forall|k: int| 0 <= k < i ==> copy@[k] == names@[k],
        decreases names.len() - i,
    {
        copy.push(names[i].clone());
        i = i + 1;
    }
    assert(copy@ =~= names@);
    copy
}

/// The answer to a request that is not served while a step round is
/// unresolved: a refusal, in the form of the answer that the request expects.
pub open spec fn refused_while_stepping(input: StmtInput, output: StmtOutput) -> bool {
    match input {
        StmtInput::Bind(_, _) => output matches StmtOutput::Bind(Err(e)) && refused_with(
            e,
            "Cannot bind when stepping"@,
        ),
        StmtInput::ClearBindings => output matches StmtOutput::ClearBindings(Err(e))
            && refused_with(e, "Cannot clear bindings when stepping"@),
        StmtInput::CloneAndReset => output matches StmtOutput::CloneAndReset(Err(e))
            && refused_with(e, "Cannot clone when stepping"@),
        StmtInput::BindParameterCount => output matches StmtOutput::BindParameterCount(Err(e))
            && refused_with(e, "Cannot count parameters when stepping"@),
        StmtInput::ColumnNames => output matches StmtOutput::ColumnNames(Err(e))
            && refused_with(e, "Cannot read columns when stepping"@),
        StmtInput::ColumnName(_) => output matches StmtOutput::ColumnName(Err(e))
            && refused_with(e, "Cannot read columns when stepping"@),
        StmtInput::ColumnCount => output matches StmtOutput::ColumnCount(Err(e))
            && refused_with(e, "Cannot read columns when stepping"@),
        _ => false,
    }
}

/// What an answer tells the caller of a request for rows.
pub open spec fn outcome_view(output: StmtOutput) -> Option<StepOutcome> {
    match output {
        StmtOutput::Rows(Ok(rows)) => Some(StepOutcome::Batch(rows_view(rows@))),
        StmtOutput::Rows(Err(RusqliteError::UserError(_))) => Some(StepOutcome::Rejected),
        StmtOutput::Done => Some(StepOutcome::EndOfResults),
        StmtOutput::Error(RusqliteError::RusqliteError(e)) => Some(StepOutcome::Failed(e)),
        _ => None,
    }
}

/// The answer that a round ends in.
pub fn round_answer(end: RoundEnd) -> (output: StmtOutput)
    ensures
        outcome_view(output) == Some(outcome_of(end@)),
        end matches RoundEnd::Full(batch) ==> output == StmtOutput::Rows(
            Ok::<Vec<Vec<SQLiteValue>>, RusqliteError>(batch),
        ),
        end matches RoundEnd::Partial(batch) ==> output == StmtOutput::Rows(
            Ok::<Vec<Vec<SQLiteValue>>, RusqliteError>(batch),
        ),
{
    match end {
        RoundEnd::Full(batch) => StmtOutput::Rows(Ok(batch)),
        RoundEnd::Partial(batch) => StmtOutput::Rows(Ok(batch)),
        RoundEnd::Finished => StmtOutput::Done,
        RoundEnd::Failed(e) => StmtOutput::Error(RusqliteError::RusqliteError(e)),
    }
}

/// The phase that a round ends in.
pub fn round_phase(end: &RoundEnd) -> (phase: Phase)
    ensures
        phase == phase_after(end@),
{
    match end {
        RoundEnd::Full(_) => Phase::Stepping,
        RoundEnd::Partial(_) => Phase::Drained,
        RoundEnd::Finished => Phase::Closed,
        RoundEnd::Failed(_) => Phase::Closed,
    }
}

/// A statement actor: what it keeps about its statement and where it stands
/// in the streaming protocol.
#[derive(Debug)]
pub struct StatementActor {
    pub meta: StatementMeta,
    pub phase: Phase,
    /// Whether the column names were read again after the first row.
    pub columns_confirmed: bool,
}

impl StatementActor {
    /// The state of the actor, but for the phase.
    pub open spec fn same_statement(self, other: StatementActor) -> bool {
        &&& self.meta == other.meta
        &&& self.columns_confirmed == other.columns_confirmed
    }

    /// An actor for a statement that was just prepared.
    pub fn new(
        query: String,
        column_names: Vec<String>,
        parameter_count: usize,
        bound_values: Bindings,
    ) -> (actor: StatementActor)
        ensures
            actor.phase == Phase::Idle,
            !actor.columns_confirmed,
            actor.meta.query == query,
            actor.meta.column_names == column_names,
            actor.meta.parameter_count == parameter_count,
            actor.meta.bound_values == bound_values,
    {
        StatementActor {
            meta: StatementMeta { query, column_names, parameter_count, bound_values },
            phase: Phase::Idle,
            columns_confirmed: false,
        }
    }

    /// Prepares `query` on a connection and binds the parameters of `seed`, in
    /// their order. Any failure of the engine is returned as it is.
    pub fn open<'conn>(
        conn: &'conn rusqlite::Connection,
        query: &str,
        seed: Option<Bindings>,
    ) -> (opened: Result<(rusqlite::Statement<'conn>, StatementActor), RusqliteError>)
        ensures
            match opened {
                Ok((_, actor)) => {
                    &&& actor.phase == Phase::Idle
                    &&& !actor.columns_confirmed
                    &&& actor.meta.query@ == query@
                    &&& actor.meta.bound_values@ == match seed {
                        Some(bindings) => bindings@,
                        None => Seq::<Entry>::empty(),
                    }
                },
                Err(e) => e.is_engine(),
            },
    {
        let mut stmt = match prepare_statement(conn, query) {
            Ok(stmt) => stmt,
            Err(e) => {
                return Err(RusqliteError::RusqliteError(e));
            },
        };
        let column_names = statement_column_names(&stmt);
        let bound_values = match seed {
            Some(bindings) => bindings,
            None => Bindings::new(),
        };
        let mut i: usize = 0;
        while i < bound_values.len()
            invariant
                i <= bound_values@.len(),
            decreases bound_values@.len() - i,
        {
            let value = engine_value(bound_values.value(i));
            match statement_bind(&mut stmt, bound_values.position(i), value) {
                Ok(()) => {},
                Err(e) => {
                    return Err(RusqliteError::RusqliteError(e));
                },
            }
            i = i + 1;
        }
        let parameter_count = statement_parameter_count(&stmt);
        let actor = StatementActor::new(
            query.to_owned(),
            column_names,
            parameter_count,
            bound_values,
        );
        Ok((stmt, actor))
    }

    /// What a copy of this statement starts from: the same query and the
    /// parameters bound at present.
    pub fn seed(&self) -> (seed: StatementSeed)
        ensures
            seed.query@ == self.meta.query@,
            seed.bound_values@ == self.meta.bound_values@,
    {
        StatementSeed {
            query: self.meta.query.clone(),
            bound_values: self.meta.bound_values.duplicate(),
        }
    }

    /// The answer to a request for the name of column `index`: the name, or
    /// the empty name where there is no such column.
    pub fn column_name(&self, index: usize) -> (name: String)
        ensures
            name@ == if index < self.meta.column_names@.len() {
                self.meta.column_names@[index as int]@
            } else {
                Seq::<char>::empty()
            },
    {
        if index < self.meta.column_names.len() {
            self.meta.column_names[index].clone()
        } else {
            String::new()
        }
    }
}

/// What an actor that holds no unresolved round does with a request, and
/// what becomes of it. Only a bind goes either way: it is recorded and
/// acknowledged where the engine takes it, and ends the statement with the
/// engine's failure where it does not.
pub open spec fn served_idle(
    before: StatementActor,
    input: StmtInput,
    after: StatementActor,
    reaction: Reaction,
) -> bool {
    match input {
        StmtInput::StepBy(n) => match step_decision(before.phase, n as nat) {
            StepDecision::Reject => after == before && (reaction matches Reaction::Reply(
                StmtOutput::Rows(Err(e)),
            ) && refused_with(e, "Cannot step by 0"@)),
            StepDecision::End => after.same_statement(before) && after.phase == Phase::Closed
                && (reaction matches Reaction::Stop(StmtOutput::Done)),
            _ => after == before && (reaction matches Reaction::Pull(m) && m == n),
        },
        StmtInput::Bind(position, value) => exists|outcome: Result<(), rusqlite::Error>|
            bound_as(before, position, value@, outcome, after, reaction),
        StmtInput::ClearBindings => {
            &&& reaction matches Reaction::Reply(StmtOutput::ClearBindings(Ok(cleared)))
                && cleared
            &&& after.phase == before.phase
            &&& after.columns_confirmed == before.columns_confirmed
            &&& after.meta.query == before.meta.query
            &&& after.meta.column_names == before.meta.column_names
            &&& after.meta.parameter_count == before.meta.parameter_count
            &&& after.meta.bound_values@ == Seq::<Entry>::empty()
        },
        StmtInput::CloneAndReset => after == before && (reaction matches Reaction::Spawn(seed)
            && seed.query@ == before.meta.query@ && seed.bound_values@
            == before.meta.bound_values@),
        StmtInput::BindParameterCount => after == before && (reaction matches Reaction::Reply(
            StmtOutput::BindParameterCount(Ok(count)),
        ) && count == before.meta.parameter_count),
        StmtInput::ColumnNames => after == before && (reaction matches Reaction::Reply(
            StmtOutput::ColumnNames(Ok(names)),
        ) && names@ == before.meta.column_names@),
        StmtInput::ColumnName(index) => after == before && (reaction matches Reaction::Reply(
            StmtOutput::ColumnName(Ok(name)),
        ) && name@ == if index < before.meta.column_names@.len() {
            before.meta.column_names@[index as int]@
        } else {
            Seq::<char>::empty()
        }),
        StmtInput::ColumnCount => after == before && (reaction matches Reaction::Reply(
            StmtOutput::ColumnCount(Ok(count)),
        ) && count == before.meta.column_names@.len()),
        StmtInput::Close => after.same_statement(before) && after.phase == Phase::Closed
            && (reaction matches Reaction::Stop(StmtOutput::Done)),
    }
}

/// What an actor with an unresolved round does with a request: a size for
/// the next round is taken up, a close ends the statement, and anything else
/// is refused and changes nothing.
pub open spec fn served_stepping(
    before: StatementActor,
    input: StmtInput,
    after: StatementActor,
    reaction: Reaction,
) -> bool {
    match input {
        StmtInput::StepBy(n) => after == before && match step_decision(before.phase, n as nat) {
            StepDecision::Reject => reaction matches Reaction::Reply(StmtOutput::Rows(Err(e)))
                && refused_with(e, "Cannot step by 0"@),
            _ => reaction matches Reaction::Pull(m) && m == n,
        },
        StmtInput::Close => after.same_statement(before) && after.phase == Phase::Closed
            && (reaction matches Reaction::Stop(StmtOutput::Done)),
        _ => after == before && (reaction matches Reaction::Reply(output)
            && refused_while_stepping(input, output)),
    }
}

/// What becomes of an actor once the engine has taken or refused a bind: a
/// bind that was taken is recorded and acknowledged, one that was refused
/// ends the statement with the engine's failure.
pub open spec fn bound_as(
    before: StatementActor,
    position: usize,
    value: ValueView,
    outcome: Result<(), rusqlite::Error>,
    after: StatementActor,
    reaction: Reaction,
) -> bool {
    match outcome {
        Ok(_) => {
            &&& reaction matches Reaction::Reply(StmtOutput::Bind(Ok(_)))
            &&& after.phase == before.phase
            &&& after.columns_confirmed == before.columns_confirmed
            &&& after.meta.query == before.meta.query
            &&& after.meta.column_names == before.meta.column_names
            &&& after.meta.parameter_count == before.meta.parameter_count
            &&& after.meta.bound_values@ == record(before.meta.bound_values@, position, value)
        },
        Err(e) => {
            &&& reaction matches Reaction::Stop(
                StmtOutput::Error(RusqliteError::RusqliteError(f)),
            ) && f == e
            &&& after.same_statement(before)
            &&& after.phase == Phase::Closed
        },
    }
}

impl StatementActor {
    /// Takes note of what the engine made of a bind.
    pub fn bound(
        &mut self,
        position: usize,
        value: SQLiteValue,
        outcome: Result<(), rusqlite::Error>,
    ) -> (reaction: Reaction)
        ensures
            bound_as(*old(self), position, value@, outcome, *final(self), reaction),
    {
        match outcome {
            Ok(()) => {
                self.meta.bound_values.insert(position, value);
                Reaction::Reply(StmtOutput::Bind(Ok(())))
            },
            Err(e) => {
                self.phase = Phase::Closed;
                Reaction::Stop(StmtOutput::Error(RusqliteError::RusqliteError(e)))
            },
        }
    }

    /// Serves a request while no round is unresolved.
    pub fn serve_idle(&mut self, stmt: &mut rusqlite::Statement<'_>, input: StmtInput) -> (reaction:
        Reaction)
        requires
            old(self).phase == Phase::Idle || old(self).phase == Phase::Drained,
        ensures
            served_idle(*old(self), input, *final(self), reaction),
    {
        match input {
            StmtInput::StepBy(n) => match decide_step(self.phase, n) {
                StepDecision::Reject => Reaction::Reply(
                    StmtOutput::Rows(Err(user_error("Cannot step by 0"))),
                ),
                StepDecision::End => {
                    self.phase = Phase::Closed;
                    Reaction::Stop(StmtOutput::Done)
                },
                _ => Reaction::Pull(n),
            },
            StmtInput::Bind(position, value) => {
                let outcome = statement_bind(stmt, position, engine_value(&value));
                self.bound(position, value, outcome)
            },
            StmtInput::ClearBindings => {
                statement_clear_bindings(stmt);
                self.meta.bound_values = Bindings::new();
                Reaction::Reply(StmtOutput::ClearBindings(Ok(true)))
            },
            StmtInput::CloneAndReset => Reaction::Spawn(self.seed()),
            StmtInput::BindParameterCount => Reaction::Reply(
                StmtOutput::BindParameterCount(Ok(self.meta.parameter_count)),
            ),
            StmtInput::ColumnNames => Reaction::Reply(
                StmtOutput::ColumnNames(Ok(clone_names(&self.meta.column_names))),
            ),
            StmtInput::ColumnName(index) => Reaction::Reply(
                StmtOutput::ColumnName(Ok(self.column_name(index))),
            ),
            StmtInput::ColumnCount => Reaction::Reply(
                StmtOutput::ColumnCount(Ok(self.meta.column_names.len())),
            ),
            StmtInput::Close => {
                self.phase = Phase::Closed;
                Reaction::Stop(StmtOutput::Done)
            },
        }
    }

    /// Serves a request while a round is unresolved.
    pub fn serve_stepping(&mut self, input: StmtInput) -> (reaction: Reaction)
        requires
            old(self).phase == Phase::Stepping,
        ensures
            served_stepping(*old(self), input, *final(self), reaction),
    {
        match input {
            StmtInput::StepBy(n) => if n == 0 {
                Reaction::Reply(StmtOutput::Rows(Err(user_error("Cannot step by 0"))))
            } else {
                Reaction::Pull(n)
            },
            StmtInput::Close => {
                self.phase = Phase::Closed;
                Reaction::Stop(StmtOutput::Done)
            },
            StmtInput::Bind(_, _) => Reaction::Reply(
                StmtOutput::Bind(Err(user_error("Cannot bind when stepping"))),
            ),
            StmtInput::ClearBindings => Reaction::Reply(
                StmtOutput::ClearBindings(Err(user_error("Cannot clear bindings when stepping"))),
            ),
            StmtInput::CloneAndReset => Reaction::Reply(
                StmtOutput::CloneAndReset(Err(user_error("Cannot clone when stepping"))),
            ),
            StmtInput::BindParameterCount => Reaction::Reply(
                StmtOutput::BindParameterCount(
                    Err(user_error("Cannot count parameters when stepping")),
                ),
            ),
            StmtInput::ColumnNames => Reaction::Reply(
                StmtOutput::ColumnNames(Err(user_error("Cannot read columns when stepping"))),
            ),
            StmtInput::ColumnName(_) => Reaction::Reply(
                StmtOutput::ColumnName(Err(user_error("Cannot read columns when stepping"))),
            ),
            StmtInput::ColumnCount => Reaction::Reply(
                StmtOutput::ColumnCount(Err(user_error("Cannot read columns when stepping"))),
            ),
        }
    }
}

/// What a round of `n` rows leaves behind: a full batch and an unresolved
/// round, a shorter batch and a drained cursor, or the end of the statement.
pub open spec fn ends_round(n: usize, output: StmtOutput, phase: Phase) -> bool {
    match output {
        StmtOutput::Rows(Ok(rows)) => (rows@.len() == n && phase == Phase::Stepping) || (0
            < rows@.len() < n && phase == Phase::Drained),
        StmtOutput::Done => phase == Phase::Closed,
        StmtOutput::Error(e) => e.is_engine() && phase == Phase::Closed,
        _ => false,
    }
}

/// What one step of the cursor gave, from what the engine returned: the
/// values of the row it stands on, the end of the cursor, or the failure.
pub fn stepped(
    advanced: Result<Option<&rusqlite::Row<'_>>, rusqlite::Error>,
    ncols: usize,
) -> (fetched: Fetched)
    ensures
        match advanced {
            Ok(Some(_)) => fetched matches Fetched::Row(row) && row@.len() == ncols,
            Ok(None) => fetched is Exhausted,
            Err(e) => fetched matches Fetched::Failed(f) && f == e,
        },
{
    match advanced {
        Ok(Some(row)) => Fetched::Row(row_to_vec(ncols, row)),
        Ok(None) => Fetched::Exhausted,
        Err(e) => Fetched::Failed(e),
    }
}

/// Steps the cursor once and reads the row it stands on, if any.
pub fn fetch(rows: &mut rusqlite::Rows<'_>, ncols: usize) -> (fetched: Fetched)
    ensures
        fetched matches Fetched::Row(row) ==> row@.len() == ncols,
{
    stepped(cursor_advance(rows), ncols)
}

impl StatementActor {
    /// Reads the column names again from the statement under a live cursor,
    /// once in the life of the actor.
    fn confirm_columns(&mut self, rows: &rusqlite::Rows<'_>)
        ensures
            final(self).columns_confirmed,
            final(self).phase == old(self).phase,
            final(self).meta.query == old(self).meta.query,
            final(self).meta.parameter_count == old(self).meta.parameter_count,
            final(self).meta.bound_values == old(self).meta.bound_values,
            old(self).columns_confirmed ==> *final(self) == *old(self),
    {
        if !self.columns_confirmed {
            match cursor_statement(rows) {
                Some(stmt) => {
                    self.meta.column_names = statement_column_names(stmt);
                },
                None => {},
            }
            self.columns_confirmed = true;
        }
    }

    /// Opens the cursor of the statement and runs the first round against it.
    /// The cursor comes back with the answer; it is to be kept for as long as
    /// the round is unresolved.
    pub fn start_round<'a>(&mut self, stmt: &'a mut rusqlite::Statement<'_>, n: usize) -> (started:
        (rusqlite::Rows<'a>, StmtOutput))
        requires
            n > 0,
            old(self).phase == Phase::Idle,
        ensures
            ends_round(n, started.1, final(self).phase),
            final(self).meta.query == old(self).meta.query,
            final(self).meta.parameter_count == old(self).meta.parameter_count,
            final(self).meta.bound_values == old(self).meta.bound_values,
            started.1 is Done ==> final(self).same_statement(*old(self)),
    {
        let mut rows = open_cursor(stmt);
        let output = self.run_round(&mut rows, n);
        (rows, output)
    }

    /// Runs one round of `n` rows against the cursor: steps it until the
    /// batch is full or the cursor ends or fails, and returns the answer to
    /// send. After the first row that the statement ever gives, the column
    /// names are read again.
    pub fn run_round(&mut self, rows: &mut rusqlite::Rows<'_>, n: usize) -> (output: StmtOutput)
        requires
            n > 0,
            old(self).phase == Phase::Idle || old(self).phase == Phase::Stepping,
        ensures
            ends_round(n, output, final(self).phase),
            final(self).meta.query == old(self).meta.query,
            final(self).meta.parameter_count == old(self).meta.parameter_count,
            final(self).meta.bound_values == old(self).meta.bound_values,
            output is Done ==> final(self).same_statement(*old(self)),
    {
        let ncols = match cursor_statement(rows) {
            Some(stmt) => statement_column_count(stmt),
            None => 0,
        };
        let mut round = Round::start(n);
        loop
            invariant
                n > 0,
                round.wf(),
                round@.wanted == n,
                self.phase == old(self).phase,
                self.meta.query == old(self).meta.query,
                self.meta.parameter_count == old(self).meta.parameter_count,
                self.meta.bound_values == old(self).meta.bound_values,
                round@.batch.len() == 0 ==> *self == *old(self),
            decreases round@.wanted - round@.batch.len(),
        {
            let fetched = fetch(rows, ncols);
            let is_row = match &fetched {
                Fetched::Row(_) => true,
                _ => false,
            };
            if is_row {
                self.confirm_columns(rows);
            }
            let ghost taken = round@;
            let ghost given = fetched@;
            match round.take(fetched) {
                Progress::More(next) => {
                    round = next;
                },
                Progress::Ended(end) => {
                    self.phase = round_phase(&end);
                    let output = round_answer(end);
                    proof {
                        assert(absorb(taken, given) == ProgressView::Ended(end@));
                        if let StmtOutput::Rows(Ok(batch)) = &output {
                            assert(rows_view(batch@).len() == batch@.len());
                        }
                    }
                    return output;
                },
            }
        }
    }
}

} // verus!
