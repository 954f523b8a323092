//! The statements that the ledger client sends to the database, with their text
//! and their arguments.

use crate::metric::Metric;
use vstd::prelude::*;

verus! {

/// The name of the ledger table, without its schema.
pub const FDW_STATS_TABLE: &'static str = "wrappers_fdw_stats";

/// The query that asks whether the current transaction is read-only.
pub open spec fn read_only_query_text() -> Seq<char> {
    "show transaction_read_only"@
}

/// The query that asks the catalog for the qualified name of the ledger table.
pub open spec fn stats_table_query_text() -> Seq<char> {
    "select b.nspname || '."@ + FDW_STATS_TABLE@
        + "'\n         from pg_catalog.pg_extension a join pg_namespace b on a.extnamespace = b.oid\n         where a.extname = 'wrappers'"@
}

/// The upsert that adds `$2` to the column `column` of the row named `$1` in `table`.
pub open spec fn inc_stats_text(table: Seq<char>, column: Seq<char>) -> Seq<char> {
    "insert into "@ + table + " as s (fdw_name, "@ + column
        + ") values($1, $2)\n         on conflict(fdw_name)\n         do update set\n            "@
        + column + " = coalesce(s."@ + column + ", 0) + excluded."@ + column
        + ",\n            updated_at = timezone('utc'::text, now())"@
}

/// The query that reads the metadata of the row named `$1` in `table`.
pub open spec fn get_metadata_text(table: Seq<char>) -> Seq<char> {
    "select metadata from "@ + table + " where fdw_name = $1"@
}

/// The upsert that sets the metadata of the row named `$1` in `table` to `$2`.
pub open spec fn set_metadata_text(table: Seq<char>) -> Seq<char> {
    "insert into "@ + table
        + " as s (fdw_name, metadata) values($1, $2)\n         on conflict(fdw_name)\n         do update set\n            metadata = $2,\n            updated_at = timezone('utc'::text, now())"@
}

/// One argument of a statement.
#[derive(Clone, Debug, PartialEq, Eq)]
pub enum Arg {
    /// A text value.
    Text(String),
    /// A 64-bit integer.
    BigInt(i64),
    /// A document, or the null document.
    Json(Option<String>),
}

/// What an [`Arg`] holds.
pub enum ArgView {
    Text(Seq<char>),
    BigInt(i64),
    Json(Option<Seq<char>>),
}

impl View for Arg {
    type V = ArgView;

    open spec fn view(&self) -> ArgView {
        match self {
            Arg::Text(text) => ArgView::Text(text@),
            Arg::BigInt(number) => ArgView::BigInt(*number),
            Arg::Json(document) => ArgView::Json(document.deep_view()),
        }
    }
}

/// A statement of the ledger client.
#[derive(Clone, Debug, PartialEq, Eq)]
pub enum Statement {
    /// Asks whether the current transaction is read-only.
    ShowReadOnly,
    /// Asks the catalog for the qualified name of the ledger table.
    FindTable,
    /// Adds `inc` to one counter of the row `fdw_name`, creating the row if there is none.
    AddToCounter { table: String, fdw_name: String, metric: Metric, inc: i64 },
    /// Reads the metadata of the row `fdw_name`.
    SelectMetadata { table: String, fdw_name: String },
    /// Replaces the metadata of the row `fdw_name`, creating the row if there is none.
    UpsertMetadata { table: String, fdw_name: String, metadata: Option<String> },
}

/// What a [`Statement`] holds.
pub enum StatementView {
    ShowReadOnly,
    FindTable,
    AddToCounter { table: Seq<char>, fdw_name: Seq<char>, metric: Metric, inc: i64 },
    SelectMetadata { table: Seq<char>, fdw_name: Seq<char> },
    UpsertMetadata { table: Seq<char>, fdw_name: Seq<char>, metadata: Option<Seq<char>> },
}

impl StatementView {
    /// The text of the statement.
    pub open spec fn text(self) -> Seq<char> {
        match self {
            StatementView::ShowReadOnly => read_only_query_text(),
            StatementView::FindTable => stats_table_query_text(),
            StatementView::AddToCounter { table, metric, .. } => inc_stats_text(
                table,
                metric.column(),
            ),
            StatementView::SelectMetadata { table, .. } => get_metadata_text(table),
            StatementView::UpsertMetadata { table, .. } => set_metadata_text(table),
        }
    }

    /// The arguments of the statement, `$1` first.
    pub open spec fn args(self) -> Seq<ArgView> {
        match self {
            StatementView::ShowReadOnly => seq![],
            StatementView::FindTable => seq![],
            StatementView::AddToCounter { fdw_name, inc, .. } => seq![
                ArgView::Text(fdw_name),
                ArgView::BigInt(inc),
            ],
            StatementView::SelectMetadata { fdw_name, .. } => seq![ArgView::Text(fdw_name)],
            StatementView::UpsertMetadata { fdw_name, metadata, .. } => seq![
                ArgView::Text(fdw_name),
                ArgView::Json(metadata),
            ],
        }
    }

    /// Whether the statement changes the ledger.
    pub open spec fn is_mutation(self) -> bool {
        self is AddToCounter || self is UpsertMetadata
    }
}

impl View for Statement {
    type V = StatementView;

    open spec fn view(&self) -> StatementView {
        match self {
            Statement::ShowReadOnly => StatementView::ShowReadOnly,
            Statement::FindTable => StatementView::FindTable,
            Statement::AddToCounter { table, fdw_name, metric, inc } => StatementView::AddToCounter {
                table: table@,
                fdw_name: fdw_name@,
                metric: *metric,
                inc: *inc,
            },
            Statement::SelectMetadata { table, fdw_name } => StatementView::SelectMetadata {
                table: table@,
                fdw_name: fdw_name@,
            },
            Statement::UpsertMetadata { table, fdw_name, metadata } => StatementView::UpsertMetadata {
                table: table@,
                fdw_name: fdw_name@,
                metadata: metadata.deep_view(),
            },
        }
    }
}

/// A copy of an optional document.
pub fn copy_document(document: &Option<String>) -> (copy: Option<String>)
    ensures
        copy.deep_view() == document.deep_view(),
{
    match document {
        Some(text) => Some(text.clone()),
        None => None,
    }
}

/// The views of a list of arguments, in order.
pub open spec fn arg_views(list: Seq<Arg>) -> Seq<ArgView> {
    list.map_values(|arg: Arg| arg@)
}

impl Statement {
    /// The text of the statement, as it is sent to the database.
    pub fn sql(&self) -> (text: String)
        ensures
            text@ == self@.text(),
    {
        match self {
            Statement::ShowReadOnly => String::from_str("show transaction_read_only"),
            Statement::FindTable => {
                let text = String::from_str("select b.nspname || '.").concat(FDW_STATS_TABLE).concat(
                    "'\n         from pg_catalog.pg_extension a join pg_namespace b on a.extnamespace = b.oid\n         where a.extname = 'wrappers'",
                );
                text
            },
            Statement::AddToCounter { table, metric, .. } => {
                let column = metric.name();
                let text = String::from_str("insert into ").concat(table.as_str()).concat(
                    " as s (fdw_name, ",
                ).concat(column).concat(
                    ") values($1, $2)\n         on conflict(fdw_name)\n         do update set\n            ",
                ).concat(column).concat(" = coalesce(s.").concat(column).concat(
                    ", 0) + excluded.",
                ).concat(column).concat(
                    ",\n            updated_at = timezone('utc'::text, now())",
                );
                text
            },
            Statement::SelectMetadata { table, .. } => {
                String::from_str("select metadata from ").concat(table.as_str()).concat(
                    " where fdw_name = $1",
                )
            },
            Statement::UpsertMetadata { table, .. } => {
                String::from_str("insert into ").concat(table.as_str()).concat(
                    " as s (fdw_name, metadata) values($1, $2)\n         on conflict(fdw_name)\n         do update set\n            metadata = $2,\n            updated_at = timezone('utc'::text, now())",
                )
            },
        }
    }

    /// The arguments of the statement, `$1` first.
    pub fn args(&self) -> (list: Vec<Arg>)
        ensures
            arg_views(list@) == self@.args(),
    {
        let mut list: Vec<Arg> = Vec::new();
        match self {
            Statement::ShowReadOnly => {},
            Statement::FindTable => {},
            Statement::AddToCounter { fdw_name, inc, .. } => {
                list.push(Arg::Text(fdw_name.clone()));
                list.push(Arg::BigInt(*inc));
            },
            Statement::SelectMetadata { fdw_name, .. } => {
                list.push(Arg::Text(fdw_name.clone()));
            },
            Statement::UpsertMetadata { fdw_name, metadata, .. } => {
                list.push(Arg::Text(fdw_name.clone()));
                list.push(Arg::Json(copy_document(metadata)));
            },
        }
        assert(arg_views(list@) =~= self@.args());
        list
    }

    /// Whether the statement changes the ledger.
    pub fn is_mutation(&self) -> (answer: bool)
        ensures
            answer == self@.is_mutation(),
    {
        match self {
            Statement::AddToCounter { .. } => true,
            Statement::UpsertMetadata { .. } => true,
            _ => false,
        }
    }
}

} // verus!
