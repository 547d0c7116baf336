//! The streaming protocol of a statement: rows leave the cursor in rounds.
//!
//! A round is asked for with a positive size `n`. It takes rows from the
//! cursor until it holds `n` of them or the cursor is exhausted. A full batch
//! leaves the round unresolved: the cursor is live and the statement waits for
//! the next size. A batch cut short by the end of the cursor is handed out and
//! the statement remembers that nothing is left. A round that finds nothing
//! ends the statement.

use vstd::prelude::*;
use crate::value::{SQLiteValue, ValueView, row_view, rows_view};

verus! {

/// Where a statement stands in the protocol.
#[derive(Clone, Copy, PartialEq, Eq, Structural, Debug)]
pub enum Phase {
    /// No cursor is open and no row has been asked for.
    Idle,
    /// No cursor is open: the last round reached the end of the cursor.
    Drained,
    /// A full batch went out; the cursor is live and waits for the next size.
    Stepping,
    /// The statement has ended.
    Closed,
}

/// What a request for `n` more rows leads to.
#[derive(Clone, Copy, PartialEq, Eq, Structural, Debug)]
pub enum StepDecision {
    /// A size of zero: refused, and nothing changes.
    Reject,
    /// Take up to `n` rows from the cursor.
    Pull,
    /// The cursor is known to be exhausted: report the end.
    End,
    /// The statement has ended and serves nothing.
    Gone,
}

/// What a request for `n` more rows leads to in each phase.
pub open spec fn step_decision(phase: Phase, n: nat) -> StepDecision {
    match phase {
        Phase::Closed => StepDecision::Gone,
        _ => if n == 0 {
            StepDecision::Reject
        } else if phase == Phase::Drained {
            StepDecision::End
        } else {
            StepDecision::Pull
        },
    }
}

/// Decides what a request for `n` more rows leads to.
pub fn decide_step(phase: Phase, n: usize) -> (decision: StepDecision)
    ensures
        decision == step_decision(phase, n as nat),
{
    match phase {
        Phase::Closed => StepDecision::Gone,
        Phase::Drained => if n == 0 {
            StepDecision::Reject
        } else {
            StepDecision::End
        },
        _ => if n == 0 {
            StepDecision::Reject
        } else {
            StepDecision::Pull
        },
    }
}

/// How a round ended, by content.
pub enum RoundEndView {
    /// The batch reached the size asked for.
    Full(Seq<Seq<ValueView>>),
    /// The cursor ended after at least one row.
    Partial(Seq<Seq<ValueView>>),
    /// The cursor ended before any row.
    Finished,
    /// The engine failed.
    Failed(rusqlite::Error),
}

/// How a round ended.
#[derive(Debug)]
pub enum RoundEnd {
    Full(Vec<Vec<SQLiteValue>>),
    Partial(Vec<Vec<SQLiteValue>>),
    Finished,
    Failed(rusqlite::Error),
}

impl View for RoundEnd {
    type V = RoundEndView;

    open spec fn view(&self) -> RoundEndView {
        match *self {
            RoundEnd::Full(batch) => RoundEndView::Full(rows_view(batch@)),
            RoundEnd::Partial(batch) => RoundEndView::Partial(rows_view(batch@)),
            RoundEnd::Finished => RoundEndView::Finished,
            RoundEnd::Failed(e) => RoundEndView::Failed(e),
        }
    }
}

/// What one step of the cursor gave, by content.
pub enum FetchedView {
    Row(Seq<ValueView>),
    Exhausted,
    Failed(rusqlite::Error),
}

/// What one step of the cursor gave.
#[derive(Debug)]
pub enum Fetched {
    Row(Vec<SQLiteValue>),
    Exhausted,
    Failed(rusqlite::Error),
}

impl View for Fetched {
    type V = FetchedView;

    open spec fn view(&self) -> FetchedView {
        match *self {
            Fetched::Row(row) => FetchedView::Row(row_view(row@)),
            Fetched::Exhausted => FetchedView::Exhausted,
            Fetched::Failed(e) => FetchedView::Failed(e),
        }
    }
}

/// A round in progress, by content.
pub struct RoundView {
    pub wanted: nat,
    pub batch: Seq<Seq<ValueView>>,
}

/// The state of a round after one step of the cursor, by content.
pub enum ProgressView {
    More(RoundView),
    Ended(RoundEndView),
}

/// A round takes one cursor step: a row joins the batch and ends the round
/// when it fills it; the end of the cursor ends the round with what the batch
/// holds; a failure ends it with the failure.
pub open spec fn absorb(round: RoundView, fetched: FetchedView) -> ProgressView {
    match fetched {
        FetchedView::Row(row) => if round.batch.len() + 1 >= round.wanted {
            ProgressView::Ended(RoundEndView::Full(round.batch.push(row)))
        } else {
            ProgressView::More(RoundView { wanted: round.wanted, batch: round.batch.push(row) })
        },
        FetchedView::Exhausted => if round.batch.len() == 0 {
            ProgressView::Ended(RoundEndView::Finished)
        } else {
            ProgressView::Ended(RoundEndView::Partial(round.batch))
        },
        FetchedView::Failed(e) => ProgressView::Ended(RoundEndView::Failed(e)),
    }
}

/// A round in progress: the size asked for and the rows taken so far.
#[derive(Debug)]
pub struct Round {
    wanted: usize,
    batch: Vec<Vec<SQLiteValue>>,
}

/// The state of a round after one step of the cursor.
#[derive(Debug)]
pub enum Progress {
    More(Round),
    Ended(RoundEnd),
}

impl View for Round {
    type V = RoundView;

    closed spec fn view(&self) -> RoundView {
        RoundView { wanted: self.wanted as nat, batch: rows_view(self.batch@) }
    }
}

impl View for Progress {
    type V = ProgressView;

    open spec fn view(&self) -> ProgressView {
        match *self {
            Progress::More(round) => ProgressView::More(round@),
            Progress::Ended(end) => ProgressView::Ended(end@),
        }
    }
}

impl Round {
    /// A round is well formed while it still lacks rows.
    pub open spec fn wf(self) -> bool {
        self@.batch.len() < self@.wanted
    }

    /// Starts a round of `n` rows.
    pub fn start(n: usize) -> (round: Round)
        requires
            n > 0,
        ensures
            round.wf(),
            round@ == (RoundView { wanted: n as nat, batch: Seq::empty() }),
    {
        let round = Round { wanted: n, batch: Vec::new() };
        assert(rows_view(round.batch@) =~= Seq::empty());
        round
    }

    /// Takes what one step of the cursor gave.
    pub fn take(self, fetched: Fetched) -> (progress: Progress)
        requires
            self.wf(),
        ensures
            progress@ == absorb(self@, fetched@),
            progress matches Progress::More(next) ==> next.wf(),
    {
        let Round { wanted, batch } = self;
        let mut batch = batch;
        match fetched {
            Fetched::Row(row) => {
                let ghost before = batch@;
                batch.push(row);
                assert(rows_view(batch@) =~= rows_view(before).push(row_view(row@)));
                if batch.len() >= wanted {
                    Progress::Ended(RoundEnd::Full(batch))
                } else {
                    Progress::More(Round { wanted, batch })
                }
            },
            Fetched::Exhausted => {
                if batch.len() == 0 {
                    Progress::Ended(RoundEnd::Finished)
                } else {
                    Progress::Ended(RoundEnd::Partial(batch))
                }
            },
            Fetched::Failed(e) => Progress::Ended(RoundEnd::Failed(e)),
        }
    }
}

/// The phase that follows a round.
pub open spec fn phase_after(end: RoundEndView) -> Phase {
    match end {
        RoundEndView::Full(_) => Phase::Stepping,
        RoundEndView::Partial(_) => Phase::Drained,
        RoundEndView::Finished => Phase::Closed,
        RoundEndView::Failed(_) => Phase::Closed,
    }
}

/// What the caller of one request for rows gets back, by content.
pub enum StepOutcome {
    /// A size of zero was refused.
    Rejected,
    /// The statement had ended before the request.
    Gone,
    /// A batch of rows, in cursor order.
    Batch(Seq<Seq<ValueView>>),
    /// No row is left.
    EndOfResults,
    /// The engine failed.
    Failed(rusqlite::Error),
}

/// What the caller gets back from a round.
pub open spec fn outcome_of(end: RoundEndView) -> StepOutcome {
    match end {
        RoundEndView::Full(batch) => StepOutcome::Batch(batch),
        RoundEndView::Partial(batch) => StepOutcome::Batch(batch),
        RoundEndView::Finished => StepOutcome::EndOfResults,
        RoundEndView::Failed(e) => StepOutcome::Failed(e),
    }
}

/// A round run against a cursor that will give the rows of `cursor`, in that
/// order, and then report its end: how the round ends, and what the cursor
/// still holds.
pub open spec fn pull(round: RoundView, cursor: Seq<Seq<ValueView>>) -> (
    RoundEndView,
    Seq<Seq<ValueView>>,
)
    decreases cursor.len(),
{
    if cursor.len() == 0 {
        match absorb(round, FetchedView::Exhausted) {
            ProgressView::Ended(end) => (end, cursor),
            ProgressView::More(_) => (RoundEndView::Finished, cursor),
        }
    } else {
        match absorb(round, FetchedView::Row(cursor[0])) {
            ProgressView::Ended(end) => (end, cursor.skip(1)),
            ProgressView::More(next) => pull(next, cursor.skip(1)),
        }
    }
}

/// A statement and the rows its cursor has yet to give.
pub struct Session {
    pub phase: Phase,
    pub cursor: Seq<Seq<ValueView>>,
}

/// One request for rows, seen from the caller.
pub struct Exchange {
    pub outcome: StepOutcome,
    pub next: Session,
}

/// One request for `n` rows, made of a statement in a given state.
pub open spec fn request_rows(session: Session, n: nat) -> Exchange {
    match step_decision(session.phase, n) {
        StepDecision::Reject => Exchange { outcome: StepOutcome::Rejected, next: session },
        StepDecision::Gone => Exchange { outcome: StepOutcome::Gone, next: session },
        StepDecision::End => Exchange {
            outcome: StepOutcome::EndOfResults,
            next: Session { phase: Phase::Closed, cursor: session.cursor },
        },
        StepDecision::Pull => {
            let (end, rest) = pull(RoundView { wanted: n, batch: Seq::empty() }, session.cursor);
            Exchange {
                outcome: outcome_of(end),
                next: Session { phase: phase_after(end), cursor: rest },
            }
        },
    }
}

/// The outcomes of asking for `n` rows again and again, for as long as a
/// batch comes back.
pub open spec fn transcript(session: Session, n: nat) -> Seq<StepOutcome>
    decreases session.cursor.len(), (if session.phase == Phase::Drained { 0nat } else { 1nat }),
{
    let exchange = request_rows(session, n);
    match exchange.outcome {
        StepOutcome::Batch(_) => {
            proof {
                lemma_pull(RoundView { wanted: n, batch: Seq::empty() }, session.cursor);
            }
            seq![exchange.outcome] + transcript(exchange.next, n)
        },
        _ => seq![exchange.outcome],
    }
}

/// All the rows that a sequence of outcomes handed over, in order.
pub open spec fn rows_handed_over(outcomes: Seq<StepOutcome>) -> Seq<Seq<ValueView>>
    decreases outcomes.len(),
{
    if outcomes.len() == 0 {
        Seq::empty()
    } else {
        let rest = rows_handed_over(outcomes.skip(1));
        match outcomes[0] {
            StepOutcome::Batch(batch) => batch + rest,
            _ => rest,
        }
    }
}

/// A round takes rows from the front of the cursor until the batch is full or
/// the cursor is empty, and leaves the others in place.
pub proof fn lemma_pull(round: RoundView, cursor: Seq<Seq<ValueView>>)
    requires
        round.batch.len() < round.wanted,
    ensures
        ({
            let room = round.wanted - round.batch.len();
            let (end, rest) = pull(round, cursor);
            if cursor.len() >= room {
                &&& end == RoundEndView::Full(round.batch + cursor.take(room))
                &&& rest == cursor.skip(room)
            } else if round.batch.len() + cursor.len() == 0 {
                &&& end == RoundEndView::Finished
                &&& rest == cursor
            } else {
                &&& end == RoundEndView::Partial(round.batch + cursor)
                &&& rest == Seq::<Seq<ValueView>>::empty()
            }
        }),
    decreases cursor.len(),
{
    let room = round.wanted - round.batch.len();
    if cursor.len() == 0 {
        assert(round.batch + cursor =~= round.batch);
        assert(cursor =~= Seq::<Seq<ValueView>>::empty());
    } else {
        let first = cursor[0];
        let tail = cursor.skip(1);
        if room == 1 {
            assert(round.batch.push(first) =~= round.batch + cursor.take(1));
            assert(tail =~= cursor.skip(room));
        } else {
            let next = RoundView { wanted: round.wanted, batch: round.batch.push(first) };
            lemma_pull(next, tail);
            if tail.len() >= room - 1 {
                assert(next.batch + tail.take(room - 1) =~= round.batch + cursor.take(room));
                assert(tail.skip(room - 1) =~= cursor.skip(room));
            } else {
                assert(next.batch + tail =~= round.batch + cursor);
            }
        }
    }
}

/// For every positive size and every cursor, asking for rows until the end is
/// reported hands over exactly the rows of the cursor, in cursor order, in
/// batches of at least one and at most `n` rows, and the last answer, and only
/// the last, reports the end of the results.
pub proof fn lemma_rounds_hand_over_every_row(
    phase: Phase,
    cursor: Seq<Seq<ValueView>>,
    n: nat,
)
    requires
        n > 0,
        phase == Phase::Idle || phase == Phase::Stepping || (phase == Phase::Drained
            && cursor.len() == 0),
    ensures
        ({
            let outcomes = transcript(Session { phase, cursor }, n);
            &&& outcomes.len() >= 1
            &&& outcomes.last() == StepOutcome::EndOfResults
            &&& forall|i: int|
                0 <= i < outcomes.len() - 1 ==> (#[trigger] outcomes[i] matches StepOutcome::Batch(
                    batch,
                ) && 1 <= batch.len() <= n)
            &&& rows_handed_over(outcomes) == cursor
        }),
    decreases cursor.len(), (if phase == Phase::Drained { 0nat } else { 1nat }),
{
    let session = Session { phase, cursor };
    let exchange = request_rows(session, n);
    let outcomes = transcript(session, n);
    if phase == Phase::Drained {
        assert(outcomes =~= seq![StepOutcome::EndOfResults]);
        assert(rows_handed_over(outcomes.skip(1)) =~= Seq::<Seq<ValueView>>::empty());
        assert(rows_handed_over(outcomes) =~= cursor);
    } else {
        lemma_pull(RoundView { wanted: n, batch: Seq::empty() }, cursor);
        if cursor.len() == 0 {
            assert(outcomes =~= seq![StepOutcome::EndOfResults]);
            assert(rows_handed_over(outcomes.skip(1)) =~= Seq::<Seq<ValueView>>::empty());
            assert(rows_handed_over(outcomes) =~= cursor);
        } else {
            let batch = if cursor.len() >= n {
                Seq::<Seq<ValueView>>::empty() + cursor.take(n as int)
            } else {
                Seq::<Seq<ValueView>>::empty() + cursor
            };
            assert(exchange.outcome == StepOutcome::Batch(batch));
            let later = transcript(exchange.next, n);
            lemma_rounds_hand_over_every_row(exchange.next.phase, exchange.next.cursor, n);
            assert(outcomes =~= seq![exchange.outcome] + later);
            assert(outcomes.skip(1) =~= later);
            assert(batch + exchange.next.cursor =~= cursor);
            assert forall|i: int| 0 <= i < outcomes.len() - 1 implies (
            #[trigger] outcomes[i] matches StepOutcome::Batch(b) && 1 <= b.len() <= n) by {
                if i > 0 {
                    assert(outcomes[i] == later[i - 1]);
                }
            }
        }
    }
}

/// A request for zero rows is refused and changes neither the statement nor
/// its cursor: whatever is asked next is answered as if the request had never
/// been made.
pub proof fn lemma_zero_size_changes_nothing(session: Session, n: nat)
    ensures
        request_rows(session, 0).next == session,
        session.phase != Phase::Closed ==> request_rows(session, 0).outcome
            == StepOutcome::Rejected,
        request_rows(request_rows(session, 0).next, n) == request_rows(session, n),
        transcript(request_rows(session, 0).next, n) == transcript(session, n),
{
}

} // verus!
