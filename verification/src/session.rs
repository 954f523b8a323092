//! A database session held in memory, and the three calls of the ledger client run
//! against it from the first statement to the outcome.

use crate::client::{
    advance, first_step, next_step, says_read_only, start, table_named, warning_text, Action,
    ActionView, Call, CallView, Outcome, OutcomeView, Reply, ReplyView, StatsErrorView,
};
use crate::ledger::{added, fits, metadata_of, replaced, Ledger, Rows};
use crate::metric::Metric;
use crate::sql::{Statement, StatementView};
use vstd::prelude::*;

verus! {

/// A session: the ledger, and how the database around it behaves.
pub struct Session {
    /// The ledger table.
    pub ledger: Ledger,
    /// The reply to the transaction-mode query.
    pub mode: Reply,
    /// The reply to the catalog lookup of the ledger table.
    pub table: Reply,
    /// Whether every statement on the ledger table fails.
    pub failing: bool,
    /// The time that writes are stamped with.
    pub now: u64,
}

/// What a [`Session`] holds.
pub struct SessionView {
    pub rows: Rows,
    pub mode: ReplyView,
    pub table: ReplyView,
    pub failing: bool,
    pub now: u64,
}

impl View for Session {
    type V = SessionView;

    open spec fn view(&self) -> SessionView {
        SessionView {
            rows: self.ledger@,
            mode: self.mode@,
            table: self.table@,
            failing: self.failing,
            now: self.now,
        }
    }
}

/// The error of a session whose statements fail.
pub open spec fn failure_text() -> Seq<char> {
    "statement failed"@
}

/// The error of an addition that leaves the range of a 64-bit integer.
pub open spec fn overflow_text() -> Seq<char> {
    "bigint out of range"@
}

/// The session after a statement, and the reply to it.
pub open spec fn answered(session: SessionView, statement: StatementView) -> (SessionView, ReplyView) {
    match statement {
        StatementView::ShowReadOnly => (session, session.mode),
        StatementView::FindTable => (session, session.table),
        StatementView::AddToCounter { fdw_name, metric, inc, .. } => if session.failing {
            (session, ReplyView::Error(failure_text()))
        } else if !fits(session.rows, fdw_name, metric, inc) {
            (session, ReplyView::Error(overflow_text()))
        } else {
            (
                SessionView {
                    rows: added(session.rows, fdw_name, metric, inc, session.now),
                    ..session
                },
                ReplyView::Null,
            )
        },
        StatementView::SelectMetadata { fdw_name, .. } => if session.failing {
            (session, ReplyView::Error(failure_text()))
        } else {
            match metadata_of(session.rows, fdw_name) {
                Some(document) => (session, ReplyView::Value(document)),
                None => (session, ReplyView::Null),
            }
        },
        StatementView::UpsertMetadata { fdw_name, metadata, .. } => if session.failing {
            (session, ReplyView::Error(failure_text()))
        } else {
            (
                SessionView {
                    rows: replaced(session.rows, fdw_name, metadata, session.now),
                    ..session
                },
                ReplyView::Null,
            )
        },
    }
}

/// How many statements can still follow an action.
pub open spec fn steps_left(action: ActionView) -> nat {
    match action {
        ActionView::Finish(_) => 0,
        ActionView::Run(StatementView::ShowReadOnly) => 3,
        ActionView::Run(StatementView::FindTable) => 2,
        ActionView::Run(_) => 1,
    }
}

/// The session and the outcome once the client, having asked for `action`, has been
/// driven to the end of the call.
pub open spec fn driven(session: SessionView, call: CallView, action: ActionView) -> (
    SessionView,
    OutcomeView,
)
    decreases steps_left(action),
{
    match action {
        ActionView::Finish(outcome) => (session, outcome),
        ActionView::Run(statement) => {
            let (after, reply) = answered(session, statement);
            driven(after, call, next_step(call, statement, reply))
        },
    }
}

/// What `inc_stats` does to a session, and how it ends.
pub open spec fn inc_stats_result(
    session: SessionView,
    fdw_name: Seq<char>,
    metric: Metric,
    inc: i64,
) -> (SessionView, OutcomeView) {
    if says_read_only(session.mode) {
        (session, OutcomeView::Skipped)
    } else {
        match table_named(session.table) {
            Err(error) => (session, OutcomeView::Failed(error)),
            Ok(_) => if session.failing {
                (session, OutcomeView::Failed(StatsErrorView::InsertFailed(failure_text())))
            } else if !fits(session.rows, fdw_name, metric, inc) {
                (session, OutcomeView::Failed(StatsErrorView::InsertFailed(overflow_text())))
            } else {
                (
                    SessionView {
                        rows: added(session.rows, fdw_name, metric, inc, session.now),
                        ..session
                    },
                    OutcomeView::Written,
                )
            },
        }
    }
}

/// How `get_metadata` ends. It never changes the session.
pub open spec fn get_metadata_result(session: SessionView, fdw_name: Seq<char>) -> OutcomeView {
    match table_named(session.table) {
        Err(error) => OutcomeView::Failed(error),
        Ok(_) => if session.failing {
            OutcomeView::Metadata(None)
        } else {
            OutcomeView::Metadata(metadata_of(session.rows, fdw_name))
        },
    }
}

/// What `set_metadata` does to a session, and how it ends.
pub open spec fn set_metadata_result(
    session: SessionView,
    fdw_name: Seq<char>,
    metadata: Option<Seq<char>>,
) -> (SessionView, OutcomeView) {
    if says_read_only(session.mode) {
        (session, OutcomeView::Skipped)
    } else {
        match table_named(session.table) {
            Err(error) => (session, OutcomeView::Failed(error)),
            Ok(_) => if session.failing {
                (session, OutcomeView::Warned(warning_text(failure_text())))
            } else {
                (
                    SessionView {
                        rows: replaced(session.rows, fdw_name, metadata, session.now),
                        ..session
                    },
                    OutcomeView::Written,
                )
            },
        }
    }
}

/// What a call does to a session, and how it ends.
pub open spec fn result_of(session: SessionView, call: CallView) -> (SessionView, OutcomeView) {
    match call {
        CallView::IncStats { fdw_name, metric, inc } => inc_stats_result(
            session,
            fdw_name,
            metric,
            inc,
        ),
        CallView::GetMetadata { fdw_name } => (session, get_metadata_result(session, fdw_name)),
        CallView::SetMetadata { fdw_name, metadata } => set_metadata_result(
            session,
            fdw_name,
            metadata,
        ),
    }
}

/// Each step brings the call nearer to its end.
pub proof fn lemma_steps_decrease(call: CallView, ran: StatementView, reply: ReplyView)
    ensures
        steps_left(next_step(call, ran, reply)) < steps_left(ActionView::Run(ran)),
{
}

/// Driving the client from its first step against a session does what the call is
/// said to do.
pub proof fn lemma_driven_is_result(session: SessionView, call: CallView)
    ensures
        driven(session, call, first_step(call)) == result_of(session, call),
{
    reveal_with_fuel(driven, 4);
}

impl Session {
    /// A writable session with an empty ledger, whose catalog names the ledger
    /// table `table`.
    pub fn new(table: &str) -> (session: Session)
        ensures
            session@.rows == Map::<Seq<char>, crate::ledger::RowView>::empty(),
            session@.mode == ReplyView::Value("off"@),
            session@.table == ReplyView::Value(table@),
            !session@.failing,
            session@.now == 0,
    {
        Session {
            ledger: Ledger::new(),
            mode: Reply::Value(String::from_str("off")),
            table: Reply::Value(String::from_str(table)),
            failing: false,
            now: 0,
        }
    }

    /// Runs one statement, as the database would.
    pub fn perform(&mut self, statement: &Statement) -> (reply: Reply)
        ensures
            (final(self)@, reply@) == answered(old(self)@, statement@),
    {
        match statement {
            Statement::ShowReadOnly => self.mode.duplicate(),
            Statement::FindTable => self.table.duplicate(),
            Statement::AddToCounter { fdw_name, metric, inc, .. } => {
                if self.failing {
                    Reply::Error(String::from_str("statement failed"))
                } else if self.ledger.add(fdw_name.as_str(), *metric, *inc, self.now) {
                    Reply::Null
                } else {
                    Reply::Error(String::from_str("bigint out of range"))
                }
            },
            Statement::SelectMetadata { fdw_name, .. } => {
                if self.failing {
                    Reply::Error(String::from_str("statement failed"))
                } else {
                    match self.ledger.metadata(fdw_name.as_str()) {
                        Some(document) => Reply::Value(document),
                        None => Reply::Null,
                    }
                }
            },
            Statement::UpsertMetadata { fdw_name, metadata, .. } => {
                if self.failing {
                    Reply::Error(String::from_str("statement failed"))
                } else {
                    self.ledger.replace_metadata(
                        fdw_name.as_str(),
                        crate::sql::copy_document(metadata),
                        self.now,
                    );
                    Reply::Null
                }
            },
        }
    }
}

/// Runs a call against a session: sends what the client asks for until the client
/// names the outcome.
pub fn run(session: &mut Session, call: &Call) -> (outcome: Outcome)
    ensures
        (final(session)@, outcome@) == result_of(old(session)@, call@),
{
    let ghost before = session@;
    proof {
        lemma_driven_is_result(before, call@);
    }
    let mut action = start(call);
    loop
        invariant
            before == old(session)@,
            driven(session@, call@, action@) == result_of(before, call@),
        decreases steps_left(action@),
    {
        match action {
            Action::Finish(outcome) => {
                return outcome;
            },
            Action::Run(statement) => {
                let reply = session.perform(&statement);
                proof {
                    lemma_steps_decrease(call@, statement@, reply@);
                }
                action = advance(call, &statement, reply);
            },
        }
    }
}

/// Adds `inc` to a counter of `fdw_name`, unless the session is read-only.
pub fn inc_stats(session: &mut Session, fdw_name: &str, metric: Metric, inc: i64) -> (outcome:
    Outcome)
    ensures
        (final(session)@, outcome@) == inc_stats_result(old(session)@, fdw_name@, metric, inc),
{
    let call = Call::IncStats { fdw_name: String::from_str(fdw_name), metric, inc };
    run(session, &call)
}

/// Reads the metadata of `fdw_name`.
pub fn get_metadata(session: &mut Session, fdw_name: &str) -> (outcome: Outcome)
    ensures
        final(session)@ == old(session)@,
        outcome@ == get_metadata_result(old(session)@, fdw_name@),
{
    let call = Call::GetMetadata { fdw_name: String::from_str(fdw_name) };
    run(session, &call)
}

/// Replaces the metadata of `fdw_name`, unless the session is read-only.
pub fn set_metadata(session: &mut Session, fdw_name: &str, metadata: Option<String>) -> (outcome:
    Outcome)
    ensures
        (final(session)@, outcome@) == set_metadata_result(
            old(session)@,
            fdw_name@,
            metadata.deep_view(),
        ),
{
    let call = Call::SetMetadata { fdw_name: String::from_str(fdw_name), metadata };
    run(session, &call)
}

} // verus!
