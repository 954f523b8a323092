//! The counters that a foreign data wrapper can report.

use vstd::prelude::*;

verus! {

/// One of the counters kept for each foreign data wrapper.
#[derive(Clone, Copy, Debug, PartialEq, Eq, Structural)]
pub enum Metric {
    CreateTimes,
    RowsIn,
    RowsOut,
    BytesIn,
    BytesOut,
}

/// Whether `c` may stand in a column name: a lower-case letter or an underscore.
pub open spec fn is_column_char(c: char) -> bool {
    ('a' <= c && c <= 'z') || c == '_'
}

/// Whether `text` is a non-empty run of column-name characters, so that it can be
/// spliced into a statement without quoting.
pub open spec fn is_column_name(text: Seq<char>) -> bool {
    &&& text.len() > 0
    &&& forall|i: int| 0 <= i < text.len() ==> is_column_char(#[trigger] text[i])
}

impl Metric {
    /// The ledger column that holds this counter.
    pub open spec fn column(self) -> Seq<char> {
        match self {
            Metric::CreateTimes => "create_times"@,
            Metric::RowsIn => "rows_in"@,
            Metric::RowsOut => "rows_out"@,
            Metric::BytesIn => "bytes_in"@,
            Metric::BytesOut => "bytes_out"@,
        }
    }

    /// The name of the ledger column that holds this counter.
    pub fn name(&self) -> (text: &'static str)
        ensures
            text@ == self.column(),
    {
        match self {
            Metric::CreateTimes => "create_times",
            Metric::RowsIn => "rows_in",
            Metric::RowsOut => "rows_out",
            Metric::BytesIn => "bytes_in",
            Metric::BytesOut => "bytes_out",
        }
    }

    /// The column name as an owned string, as it is shown to a reader.
    pub fn to_string(&self) -> (text: String)
        ensures
            text@ == self.column(),
    {
        String::from_str(self.name())
    }

    /// The five counters, in the order of the ledger's columns.
    pub fn all() -> (list: [Metric; 5])
        ensures
            list@ == seq![
                Metric::CreateTimes,
                Metric::RowsIn,
                Metric::RowsOut,
                Metric::BytesIn,
                Metric::BytesOut,
            ],
            forall|m: Metric| list@.contains(m),
    {
        let list = [
            Metric::CreateTimes,
            Metric::RowsIn,
            Metric::RowsOut,
            Metric::BytesIn,
            Metric::BytesOut,
        ];
        proof {
            assert forall|m: Metric| list@.contains(m) by {
                match m {
                    Metric::CreateTimes => assert(list@[0] == m),
                    Metric::RowsIn => assert(list@[1] == m),
                    Metric::RowsOut => assert(list@[2] == m),
                    Metric::BytesIn => assert(list@[3] == m),
                    Metric::BytesOut => assert(list@[4] == m),
                }
            }
        }
        list
    }

    /// Every counter's column is a plain column name: nothing in it needs quoting,
    /// whatever the counter.
    pub proof fn lemma_column_is_name(self)
        ensures
            is_column_name(self.column()),
    {
        reveal_strlit("create_times");
        reveal_strlit("rows_in");
        reveal_strlit("rows_out");
        reveal_strlit("bytes_in");
        reveal_strlit("bytes_out");
    }

    /// Two different counters never share a column.
    pub proof fn lemma_columns_differ(self, other: Metric)
        requires
            self != other,
        ensures
            self.column() != other.column(),
    {
        reveal_strlit("create_times");
        reveal_strlit("rows_in");
        reveal_strlit("rows_out");
        reveal_strlit("bytes_in");
        reveal_strlit("bytes_out");
        if self.column().len() == other.column().len() {
            assert(self.column()[0] != other.column()[0]);
        }
    }
}

} // verus!
