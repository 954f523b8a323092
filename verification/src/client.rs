//! The ledger client's decisions: which statement to send next, and what an answer
//! of the database means for the caller.
//!
//! The client never talks to the database itself. It names a statement, is handed
//! the reply, and names the next statement or the outcome of the call.

use crate::metric::Metric;
use crate::sql::{copy_document, Statement, StatementView};
use vstd::prelude::*;

verus! {

/// The reply of the database to one statement.
#[derive(Clone, Debug, PartialEq, Eq)]
pub enum Reply {
    /// The first column of the first row.
    Value(String),
    /// Success without a value: a null, or a statement that returns nothing.
    Null,
    /// The statement failed; the text is the database's error.
    Error(String),
}

/// What a [`Reply`] holds.
pub enum ReplyView {
    Value(Seq<char>),
    Null,
    Error(Seq<char>),
}

impl View for Reply {
    type V = ReplyView;

    open spec fn view(&self) -> ReplyView {
        match self {
            Reply::Value(text) => ReplyView::Value(text@),
            Reply::Null => ReplyView::Null,
            Reply::Error(text) => ReplyView::Error(text@),
        }
    }
}

impl Reply {
    /// A copy of the reply.
    pub fn duplicate(&self) -> (copy: Reply)
        ensures
            copy@ == self@,
    {
        match self {
            Reply::Value(text) => Reply::Value(text.clone()),
            Reply::Null => Reply::Null,
            Reply::Error(text) => Reply::Error(text.clone()),
        }
    }
}

/// Why a call cannot go on.
#[derive(Clone, Debug, PartialEq, Eq)]
pub enum StatsError {
    /// The catalog lookup failed: the extension that owns the ledger is not
    /// installed. The text is the database's error.
    ExtensionMissing(String),
    /// The catalog lookup gave no name: the ledger table was not created.
    TableMissing,
    /// The upsert of a counter failed. The text is the database's error.
    InsertFailed(String),
}

/// What a [`StatsError`] holds.
pub enum StatsErrorView {
    ExtensionMissing(Seq<char>),
    TableMissing,
    InsertFailed(Seq<char>),
}

impl StatsErrorView {
    /// The words in which the error is reported.
    pub open spec fn message(self) -> Seq<char> {
        match self {
            StatsErrorView::ExtensionMissing(cause) => "wrappers extension should be installed: "@
                + cause,
            StatsErrorView::TableMissing => "fdw stats table should be created"@,
            StatsErrorView::InsertFailed(cause) => "should insert into fdw stats table: "@ + cause,
        }
    }
}

impl View for StatsError {
    type V = StatsErrorView;

    open spec fn view(&self) -> StatsErrorView {
        match self {
            StatsError::ExtensionMissing(cause) => StatsErrorView::ExtensionMissing(cause@),
            StatsError::TableMissing => StatsErrorView::TableMissing,
            StatsError::InsertFailed(cause) => StatsErrorView::InsertFailed(cause@),
        }
    }
}

impl StatsError {
    /// The words in which the error is reported.
    pub fn message(&self) -> (text: String)
        ensures
            text@ == self@.message(),
    {
        match self {
            StatsError::ExtensionMissing(cause) => String::from_str(
                "wrappers extension should be installed: ",
            ).concat(cause.as_str()),
            StatsError::TableMissing => String::from_str("fdw stats table should be created"),
            StatsError::InsertFailed(cause) => String::from_str(
                "should insert into fdw stats table: ",
            ).concat(cause.as_str()),
        }
    }
}

/// How a call ended.
#[derive(Clone, Debug, PartialEq, Eq)]
pub enum Outcome {
    /// The transaction is read-only: nothing was written, and nothing is wrong.
    Skipped,
    /// The upsert ran.
    Written,
    /// The metadata that was read, `None` where there is none or the read failed.
    Metadata(Option<String>),
    /// The metadata upsert failed. The call still ends normally; the text is the
    /// warning for the operator.
    Warned(String),
    /// The call must be aborted.
    Failed(StatsError),
}

/// What an [`Outcome`] holds.
pub enum OutcomeView {
    Skipped,
    Written,
    Metadata(Option<Seq<char>>),
    Warned(Seq<char>),
    Failed(StatsErrorView),
}

impl View for Outcome {
    type V = OutcomeView;

    open spec fn view(&self) -> OutcomeView {
        match self {
            Outcome::Skipped => OutcomeView::Skipped,
            Outcome::Written => OutcomeView::Written,
            Outcome::Metadata(document) => OutcomeView::Metadata(document.deep_view()),
            Outcome::Warned(text) => OutcomeView::Warned(text@),
            Outcome::Failed(error) => OutcomeView::Failed(error@),
        }
    }
}

impl Outcome {
    /// Whether the call must be aborted.
    pub fn is_fatal(&self) -> (answer: bool)
        ensures
            answer == (self@ is Failed),
    {
        match self {
            Outcome::Failed(_) => true,
            _ => false,
        }
    }
}

/// One call of the ledger client.
#[derive(Clone, Debug, PartialEq, Eq)]
pub enum Call {
    /// Add `inc` to a counter of `fdw_name`.
    IncStats { fdw_name: String, metric: Metric, inc: i64 },
    /// Read the metadata of `fdw_name`.
    GetMetadata { fdw_name: String },
    /// Replace the metadata of `fdw_name`; `None` clears it.
    SetMetadata { fdw_name: String, metadata: Option<String> },
}

/// What a [`Call`] holds.
pub enum CallView {
    IncStats { fdw_name: Seq<char>, metric: Metric, inc: i64 },
    GetMetadata { fdw_name: Seq<char> },
    SetMetadata { fdw_name: Seq<char>, metadata: Option<Seq<char>> },
}

impl CallView {
    /// Whether the call writes to the ledger.
    pub open spec fn is_write(self) -> bool {
        !(self is GetMetadata)
    }

    /// The statement that does the call's work on the ledger table `table`.
    pub open spec fn statement(self, table: Seq<char>) -> StatementView {
        match self {
            CallView::IncStats { fdw_name, metric, inc } => StatementView::AddToCounter {
                table,
                fdw_name,
                metric,
                inc,
            },
            CallView::GetMetadata { fdw_name } => StatementView::SelectMetadata { table, fdw_name },
            CallView::SetMetadata { fdw_name, metadata } => StatementView::UpsertMetadata {
                table,
                fdw_name,
                metadata,
            },
        }
    }
}

impl View for Call {
    type V = CallView;

    open spec fn view(&self) -> CallView {
        match self {
            Call::IncStats { fdw_name, metric, inc } => CallView::IncStats {
                fdw_name: fdw_name@,
                metric: *metric,
                inc: *inc,
            },
            Call::GetMetadata { fdw_name } => CallView::GetMetadata { fdw_name: fdw_name@ },
            Call::SetMetadata { fdw_name, metadata } => CallView::SetMetadata {
                fdw_name: fdw_name@,
                metadata: metadata.deep_view(),
            },
        }
    }
}

impl Call {
    /// The statement that does the call's work on the ledger table `table`.
    pub fn statement(&self, table: String) -> (statement: Statement)
        ensures
            statement@ == self@.statement(table@),
    {
        match self {
            Call::IncStats { fdw_name, metric, inc } => Statement::AddToCounter {
                table,
                fdw_name: fdw_name.clone(),
                metric: *metric,
                inc: *inc,
            },
            Call::GetMetadata { fdw_name } => Statement::SelectMetadata {
                table,
                fdw_name: fdw_name.clone(),
            },
            Call::SetMetadata { fdw_name, metadata } => Statement::UpsertMetadata {
                table,
                fdw_name: fdw_name.clone(),
                metadata: copy_document(metadata),
            },
        }
    }
}

/// What the client asks of its driver.
#[derive(Clone, Debug, PartialEq, Eq)]
pub enum Action {
    /// Send the statement, and come back with the reply.
    Run(Statement),
    /// The call is over.
    Finish(Outcome),
}

/// What an [`Action`] holds.
pub enum ActionView {
    Run(StatementView),
    Finish(OutcomeView),
}

impl View for Action {
    type V = ActionView;

    open spec fn view(&self) -> ActionView {
        match self {
            Action::Run(statement) => ActionView::Run(statement@),
            Action::Finish(outcome) => ActionView::Finish(outcome@),
        }
    }
}

/// Whether a reply to the transaction-mode query says that the transaction is
/// read-only. Only the value `on` does: a failure, a null or any other value
/// leaves the client free to write.
pub open spec fn says_read_only(reply: ReplyView) -> bool {
    reply == ReplyView::Value("on"@)
}

/// What a reply to the catalog lookup says of the ledger table: its qualified
/// name, or why there is none.
pub open spec fn table_named(reply: ReplyView) -> Result<Seq<char>, StatsErrorView> {
    match reply {
        ReplyView::Value(table) => Ok(table),
        ReplyView::Null => Err(StatsErrorView::TableMissing),
        ReplyView::Error(cause) => Err(StatsErrorView::ExtensionMissing(cause)),
    }
}

/// The warning that reports a failed metadata upsert.
pub open spec fn warning_text(cause: Seq<char>) -> Seq<char> {
    "set fdw stats metadata failed: "@ + cause
}

/// The first thing a call asks for: a write asks for the transaction's mode, a
/// read goes straight to the catalog.
pub open spec fn first_step(call: CallView) -> ActionView {
    if call.is_write() {
        ActionView::Run(StatementView::ShowReadOnly)
    } else {
        ActionView::Run(StatementView::FindTable)
    }
}

/// What a call asks for after the statement `ran` was answered with `reply`.
pub open spec fn next_step(call: CallView, ran: StatementView, reply: ReplyView) -> ActionView {
    match ran {
        StatementView::ShowReadOnly => if says_read_only(reply) {
            ActionView::Finish(OutcomeView::Skipped)
        } else {
            ActionView::Run(StatementView::FindTable)
        },
        StatementView::FindTable => match table_named(reply) {
            Ok(table) => ActionView::Run(call.statement(table)),
            Err(error) => ActionView::Finish(OutcomeView::Failed(error)),
        },
        StatementView::AddToCounter { .. } => match reply {
            ReplyView::Error(cause) => ActionView::Finish(
                OutcomeView::Failed(StatsErrorView::InsertFailed(cause)),
            ),
            _ => ActionView::Finish(OutcomeView::Written),
        },
        StatementView::SelectMetadata { .. } => match reply {
            ReplyView::Value(document) => ActionView::Finish(OutcomeView::Metadata(Some(document))),
            _ => ActionView::Finish(OutcomeView::Metadata(None)),
        },
        StatementView::UpsertMetadata { .. } => match reply {
            ReplyView::Error(cause) => ActionView::Finish(OutcomeView::Warned(warning_text(cause))),
            _ => ActionView::Finish(OutcomeView::Written),
        },
    }
}

/// Whether a reply to the transaction-mode query says that the transaction is
/// read-only.
pub fn is_txn_read_only(reply: &Reply) -> (answer: bool)
    ensures
        answer == says_read_only(reply@),
{
    match reply {
        Reply::Value(text) => {
            let on = String::from_str("on");
            *text == on
        },
        _ => false,
    }
}

/// The qualified name of the ledger table, from the reply to the catalog lookup.
pub fn get_stats_table(reply: Reply) -> (table: Result<String, StatsError>)
    ensures
        match table {
            Ok(name) => table_named(reply@) == Ok::<Seq<char>, StatsErrorView>(name@),
            Err(error) => table_named(reply@) == Err::<Seq<char>, StatsErrorView>(error@),
        },
{
    match reply {
        Reply::Value(name) => Ok(name),
        Reply::Null => Err(StatsError::TableMissing),
        Reply::Error(cause) => Err(StatsError::ExtensionMissing(cause)),
    }
}

/// The first thing a call asks for.
pub fn start(call: &Call) -> (action: Action)
    ensures
        action@ == first_step(call@),
{
    match call {
        Call::GetMetadata { .. } => Action::Run(Statement::FindTable),
        _ => Action::Run(Statement::ShowReadOnly),
    }
}

/// What a call asks for after the statement `ran` was answered with `reply`.
pub fn advance(call: &Call, ran: &Statement, reply: Reply) -> (action: Action)
    ensures
        action@ == next_step(call@, ran@, reply@),
{
    match ran {
        Statement::ShowReadOnly => {
            if is_txn_read_only(&reply) {
                Action::Finish(Outcome::Skipped)
            } else {
                Action::Run(Statement::FindTable)
            }
        },
        Statement::FindTable => match get_stats_table(reply) {
            Ok(table) => Action::Run(call.statement(table)),
            Err(error) => Action::Finish(Outcome::Failed(error)),
        },
        Statement::AddToCounter { .. } => match reply {
            Reply::Error(cause) => Action::Finish(Outcome::Failed(StatsError::InsertFailed(cause))),
            _ => Action::Finish(Outcome::Written),
        },
        Statement::SelectMetadata { .. } => match reply {
            Reply::Value(document) => Action::Finish(Outcome::Metadata(Some(document))),
            _ => Action::Finish(Outcome::Metadata(None)),
        },
        Statement::UpsertMetadata { .. } => match reply {
            Reply::Error(cause) => Action::Finish(
                Outcome::Warned(
                    String::from_str("set fdw stats metadata failed: ").concat(cause.as_str()),
                ),
            ),
            _ => Action::Finish(Outcome::Written),
        },
    }
}

} // verus!
