//! What holds of the ledger client, whatever the names, counters, documents and
//! sessions.

use crate::client::{
    first_step, next_step, says_read_only, table_named, warning_text, ActionView, CallView,
    OutcomeView, ReplyView, StatsErrorView,
};
use crate::ledger::{metadata_of, row_or_blank, total, RowView, Rows};
use crate::metric::Metric;
use crate::session::{
    failure_text, get_metadata_result, inc_stats_result, result_of, set_metadata_result,
    SessionView,
};
use crate::sql::StatementView;
use vstd::seq_lib::{commutative_foldr, lemma_fold_right_permutation};
use vstd::prelude::*;

verus! {

/// Whether writes reach the ledger: the session does not say that it is read-only,
/// the catalog names the ledger table, and statements do not fail.
pub open spec fn writable(session: SessionView) -> bool {
    &&& !says_read_only(session.mode)
    &&& table_named(session.table) is Ok
    &&& !session.failing
}

/// One call made on the ledger by some session: the call, and how the database
/// behaves toward that session.
pub struct Turn {
    pub call: CallView,
    pub mode: ReplyView,
    pub table: ReplyView,
    pub failing: bool,
    pub now: u64,
}

impl Turn {
    /// The session that takes the turn when the ledger holds `rows`.
    pub open spec fn session(self, rows: Rows) -> SessionView {
        SessionView {
            rows,
            mode: self.mode,
            table: self.table,
            failing: self.failing,
            now: self.now,
        }
    }

    /// How the turn ends when the ledger holds `rows`.
    pub open spec fn outcome(self, rows: Rows) -> OutcomeView {
        result_of(self.session(rows), self.call).1
    }

    /// The ledger after the turn, when it held `rows` before.
    pub open spec fn rows_after(self, rows: Rows) -> Rows {
        result_of(self.session(rows), self.call).0.rows
    }

    /// Whether the turn is an increment to the counter `metric` of `fdw_name`.
    pub open spec fn targets(self, fdw_name: Seq<char>, metric: Metric) -> bool {
        match self.call {
            CallView::IncStats { fdw_name: name, metric: counter, .. } => name == fdw_name
                && counter == metric,
            _ => false,
        }
    }

    /// What the turn asks to add to the counter `metric` of `fdw_name`.
    pub open spec fn increment_to(self, fdw_name: Seq<char>, metric: Metric) -> int {
        match self.call {
            CallView::IncStats { inc, .. } => if self.targets(fdw_name, metric) {
                inc as int
            } else {
                0
            },
            _ => 0,
        }
    }
}

/// The ledger after a run of turns, each taken as a whole, one after the other.
pub open spec fn rows_after(rows: Rows, turns: Seq<Turn>) -> Rows
    decreases turns.len(),
{
    if turns.len() == 0 {
        rows
    } else {
        turns.last().rows_after(rows_after(rows, turns.drop_last()))
    }
}

/// Whether every increment to the counter `metric` of `fdw_name` among `turns` is
/// written: none is skipped in a read-only session, and none fails.
pub open spec fn increments_written(
    rows: Rows,
    turns: Seq<Turn>,
    fdw_name: Seq<char>,
    metric: Metric,
) -> bool
    decreases turns.len(),
{
    if turns.len() == 0 {
        true
    } else {
        &&& increments_written(rows, turns.drop_last(), fdw_name, metric)
        &&& turns.last().targets(fdw_name, metric) ==> turns.last().outcome(
            rows_after(rows, turns.drop_last()),
        ) == OutcomeView::Written
    }
}

/// Whether some turn among `turns` is an increment to the counter `metric` of
/// `fdw_name`.
pub open spec fn targeted(turns: Seq<Turn>, fdw_name: Seq<char>, metric: Metric) -> bool {
    exists|i: int| 0 <= i < turns.len() && (#[trigger] turns[i]).targets(fdw_name, metric)
}

/// The sum of what `turns` ask to add to the counter `metric` of `fdw_name`.
pub open spec fn increments_to(turns: Seq<Turn>, fdw_name: Seq<char>, metric: Metric) -> int
    decreases turns.len(),
{
    if turns.len() == 0 {
        0
    } else {
        increments_to(turns.drop_last(), fdw_name, metric) + turns.last().increment_to(
            fdw_name,
            metric,
        )
    }
}

/// The first increment for a name that the ledger does not know makes exactly one
/// row: under that name, with the counter at the increment, every other counter
/// unset and no metadata. The rows that were there stay as they were.
pub proof fn law_first_increment_makes_the_row(
    session: SessionView,
    fdw_name: Seq<char>,
    metric: Metric,
    inc: i64,
)
    requires
        writable(session),
        !session.rows.contains_key(fdw_name),
    ensures
        ({
            let (after, outcome) = inc_stats_result(session, fdw_name, metric, inc);
            &&& outcome == OutcomeView::Written
            &&& after.rows.dom() == session.rows.dom().insert(fdw_name)
            &&& after.rows[fdw_name] == RowView {
                updated_at: session.now,
                ..RowView::blank().with_counter(metric, Some(inc))
            }
            &&& after.rows[fdw_name].counter(metric) == Some(inc)
            &&& forall|other: Metric|
                other != metric ==> after.rows[fdw_name].counter(other) == None::<i64>
            &&& after.rows[fdw_name].metadata == None::<Seq<char>>
            &&& forall|name: Seq<char>|
                session.rows.contains_key(name) ==> after.rows[name] == session.rows[name]
        }),
{
    let (after, outcome) = inc_stats_result(session, fdw_name, metric, inc);
    assert(after.rows.dom() =~= session.rows.dom().insert(fdw_name));
}

/// A turn changes a counter only by an increment to it that is written, and then
/// by exactly the increment. A written increment leaves its counter set, and no
/// turn unsets a counter.
pub proof fn law_turn_adds_its_increment(
    rows: Rows,
    turn: Turn,
    fdw_name: Seq<char>,
    metric: Metric,
)
    ensures
        total(turn.rows_after(rows), fdw_name, metric) == total(rows, fdw_name, metric) + (if turn.outcome(
            rows,
        ) == OutcomeView::Written {
            turn.increment_to(fdw_name, metric)
        } else {
            0
        }),
        turn.targets(fdw_name, metric) && turn.outcome(rows) == OutcomeView::Written
            ==> row_or_blank(turn.rows_after(rows), fdw_name).counter(metric) is Some,
        row_or_blank(rows, fdw_name).counter(metric) is Some ==> row_or_blank(
            turn.rows_after(rows),
            fdw_name,
        ).counter(metric) is Some,
{
}

/// After any run of turns in which the increments to a counter are written, the
/// counter stands at what it was plus the sum of those increments, whichever
/// sessions took the turns and whatever else was called in between.
pub proof fn law_counter_is_sum_of_increments(
    rows: Rows,
    turns: Seq<Turn>,
    fdw_name: Seq<char>,
    metric: Metric,
)
    requires
        increments_written(rows, turns, fdw_name, metric),
    ensures
        total(rows_after(rows, turns), fdw_name, metric) == total(rows, fdw_name, metric)
            + increments_to(turns, fdw_name, metric),
        targeted(turns, fdw_name, metric) ==> row_or_blank(
            rows_after(rows, turns),
            fdw_name,
        ).counter(metric) is Some,
    decreases turns.len(),
{
    if turns.len() > 0 {
        let earlier = turns.drop_last();
        law_counter_is_sum_of_increments(rows, earlier, fdw_name, metric);
        law_turn_adds_its_increment(rows_after(rows, earlier), turns.last(), fdw_name, metric);
        if targeted(turns, fdw_name, metric) {
            let i = choose|i: int|
                0 <= i < turns.len() && (#[trigger] turns[i]).targets(fdw_name, metric);
            if i < earlier.len() {
                assert(earlier[i].targets(fdw_name, metric));
            }
        }
    }
}

/// The sum of the increments is a fold over the turns.
proof fn lemma_increments_fold(turns: Seq<Turn>, fdw_name: Seq<char>, metric: Metric, base: int)
    ensures
        turns.fold_right(|turn: Turn, sum: int| sum + turn.increment_to(fdw_name, metric), base)
            == base + increments_to(turns, fdw_name, metric),
    decreases turns.len(),
{
    if turns.len() > 0 {
        lemma_increments_fold(
            turns.drop_last(),
            fdw_name,
            metric,
            base + turns.last().increment_to(fdw_name, metric),
        );
    }
}

/// The order of the turns does not matter to a counter: two runs of the same turns,
/// interleaved in any two ways, leave it at the same value, as long as the
/// increments to it are written in both.
pub proof fn law_order_of_turns_is_immaterial(
    rows: Rows,
    one: Seq<Turn>,
    other: Seq<Turn>,
    fdw_name: Seq<char>,
    metric: Metric,
)
    requires
        one.to_multiset() == other.to_multiset(),
        increments_written(rows, one, fdw_name, metric),
        increments_written(rows, other, fdw_name, metric),
    ensures
        total(rows_after(rows, one), fdw_name, metric) == total(
            rows_after(rows, other),
            fdw_name,
            metric,
        ),
{
    let step = |turn: Turn, sum: int| sum + turn.increment_to(fdw_name, metric);
    assert(commutative_foldr(step));
    lemma_fold_right_permutation(one, other, step, 0);
    lemma_increments_fold(one, fdw_name, metric, 0);
    lemma_increments_fold(other, fdw_name, metric, 0);
    law_counter_is_sum_of_increments(rows, one, fdw_name, metric);
    law_counter_is_sum_of_increments(rows, other, fdw_name, metric);
}

/// In a session that says it is read-only, a call leaves the session as it was,
/// and a write ends as skipped.
pub proof fn law_read_only_is_no_op(session: SessionView, call: CallView)
    requires
        says_read_only(session.mode),
    ensures
        result_of(session, call).0 == session,
        call.is_write() ==> result_of(session, call).1 == OutcomeView::Skipped,
{
}

/// A write sends nothing to the ledger table once the transaction has said that it
/// is read-only: it asks for the mode first, and the answer `on` ends the call.
pub proof fn law_read_only_sends_nothing(call: CallView, reply: ReplyView)
    requires
        call.is_write(),
        says_read_only(reply),
    ensures
        first_step(call) == ActionView::Run(StatementView::ShowReadOnly),
        next_step(call, StatementView::ShowReadOnly, reply) == ActionView::Finish(
            OutcomeView::Skipped,
        ),
{
}

/// Any answer to the mode query but the value `on` lets the write go on to the
/// catalog lookup.
pub proof fn law_unclear_mode_lets_writes_through(call: CallView, reply: ReplyView)
    requires
        !says_read_only(reply),
    ensures
        next_step(call, StatementView::ShowReadOnly, reply) == ActionView::Run(
            StatementView::FindTable,
        ),
{
}

/// Reading never changes the session, and for a name without a row it finds no
/// metadata.
pub proof fn law_unknown_name_has_no_metadata(session: SessionView, fdw_name: Seq<char>)
    requires
        table_named(session.table) is Ok,
        !session.rows.contains_key(fdw_name),
    ensures
        get_metadata_result(session, fdw_name) == OutcomeView::Metadata(None),
{
}

/// What was written is what is read: after the metadata of a name was set, to a
/// document or to none, reading it gives exactly that.
pub proof fn law_read_after_write(
    session: SessionView,
    fdw_name: Seq<char>,
    metadata: Option<Seq<char>>,
)
    requires
        writable(session),
    ensures
        ({
            let (after, outcome) = set_metadata_result(session, fdw_name, metadata);
            &&& outcome == OutcomeView::Written
            &&& get_metadata_result(after, fdw_name) == OutcomeView::Metadata(metadata)
        }),
{
}

/// Clearing the metadata twice is the same as clearing it once.
pub proof fn law_clear_is_idempotent(session: SessionView, fdw_name: Seq<char>)
    requires
        writable(session),
    ensures
        ({
            let once = set_metadata_result(session, fdw_name, None).0;
            set_metadata_result(once, fdw_name, None).0 == once
        }),
{
    let once = set_metadata_result(session, fdw_name, None).0;
    let twice = set_metadata_result(once, fdw_name, None).0;
    assert(twice.rows =~= once.rows);
}

/// A write replaces the document and merges nothing: after two writes the ledger
/// is as if only the second had been made.
pub proof fn law_write_replaces(
    session: SessionView,
    fdw_name: Seq<char>,
    earlier: Option<Seq<char>>,
    later: Option<Seq<char>>,
)
    requires
        writable(session),
    ensures
        ({
            let between = set_metadata_result(session, fdw_name, earlier).0;
            let after = set_metadata_result(between, fdw_name, later).0;
            &&& after == set_metadata_result(session, fdw_name, later).0
            &&& metadata_of(after.rows, fdw_name) == later
        }),
{
    let between = set_metadata_result(session, fdw_name, earlier).0;
    let after = set_metadata_result(between, fdw_name, later).0;
    assert(after.rows =~= set_metadata_result(session, fdw_name, later).0.rows);
}

/// Writing metadata leaves every counter of every row as it was, and writing a
/// counter leaves every row's metadata as it was.
pub proof fn law_counters_and_metadata_are_apart(
    session: SessionView,
    call: CallView,
    name: Seq<char>,
    counter: Metric,
)
    ensures
        !(call is IncStats) ==> row_or_blank(result_of(session, call).0.rows, name).counter(
            counter,
        ) == row_or_blank(session.rows, name).counter(counter),
        !(call is SetMetadata) ==> metadata_of(result_of(session, call).0.rows, name)
            == metadata_of(session.rows, name),
{
}

/// No call deletes a row.
pub proof fn law_rows_stay(session: SessionView, call: CallView, name: Seq<char>)
    requires
        session.rows.contains_key(name),
    ensures
        result_of(session, call).0.rows.contains_key(name),
{
}

/// When the upsert fails, setting metadata ends with a warning and is not
/// aborted, while adding to a counter is aborted. Either way the ledger is as it
/// was.
pub proof fn law_failed_upsert(
    session: SessionView,
    fdw_name: Seq<char>,
    metadata: Option<Seq<char>>,
    metric: Metric,
    inc: i64,
)
    requires
        !says_read_only(session.mode),
        table_named(session.table) is Ok,
        session.failing,
    ensures
        set_metadata_result(session, fdw_name, metadata) == (
            session,
            OutcomeView::Warned(warning_text(failure_text())),
        ),
        inc_stats_result(session, fdw_name, metric, inc) == (
            session,
            OutcomeView::Failed(StatsErrorView::InsertFailed(failure_text())),
        ),
{
}

/// Whatever error the database gives: a failed metadata upsert ends the call with
/// a warning that holds the error, a failed counter upsert aborts the call with
/// the error, and a failed read of metadata counts as no metadata.
pub proof fn law_what_an_error_means(call: CallView, ran: StatementView, cause: Seq<char>)
    ensures
        ran is UpsertMetadata ==> next_step(call, ran, ReplyView::Error(cause))
            == ActionView::Finish(OutcomeView::Warned(warning_text(cause))),
        ran is AddToCounter ==> next_step(call, ran, ReplyView::Error(cause))
            == ActionView::Finish(OutcomeView::Failed(StatsErrorView::InsertFailed(cause))),
        ran is SelectMetadata ==> next_step(call, ran, ReplyView::Error(cause))
            == ActionView::Finish(OutcomeView::Metadata(None)),
{
}

/// The ledger table is looked up anew for every call: a statement on the ledger
/// table is only ever asked for in answer to the catalog lookup, and it names the
/// table that the lookup gave.
pub proof fn law_table_is_looked_up_each_time(
    call: CallView,
    ran: StatementView,
    reply: ReplyView,
    statement: StatementView,
)
    requires
        next_step(call, ran, reply) == ActionView::Run(statement),
        statement != StatementView::FindTable,
    ensures
        ran == StatementView::FindTable,
        table_named(reply) is Ok,
        statement == call.statement(table_named(reply)->Ok_0),
{
}

/// Nothing that a caller passes enters the text of a statement: the text of an
/// upsert or a select depends on the table, and for a counter on the counter, and
/// on nothing else. The name, the increment and the document travel as arguments.
pub proof fn law_text_holds_no_argument(table: Seq<char>, one: CallView, other: CallView)
    requires
        one is IncStats <==> other is IncStats,
        one is GetMetadata <==> other is GetMetadata,
        one is IncStats ==> one->IncStats_metric == other->IncStats_metric,
    ensures
        one.statement(table).text() == other.statement(table).text(),
{
}

} // verus!
