//! The ledger: one row of counters and metadata for each foreign data wrapper.

use crate::metric::Metric;
use crate::sql::copy_document;
use vstd::hash_map::StringHashMap;
use vstd::prelude::*;

verus! {

/// One row of the ledger. The name of the wrapper is the key under which the ledger
/// keeps the row.
#[derive(Clone, Debug, PartialEq, Eq)]
pub struct Row {
    pub create_times: Option<i64>,
    pub rows_in: Option<i64>,
    pub rows_out: Option<i64>,
    pub bytes_in: Option<i64>,
    pub bytes_out: Option<i64>,
    /// The document last written, if any.
    pub metadata: Option<String>,
    /// The time of the last write.
    pub updated_at: u64,
}

/// What a [`Row`] holds.
pub struct RowView {
    pub create_times: Option<i64>,
    pub rows_in: Option<i64>,
    pub rows_out: Option<i64>,
    pub bytes_in: Option<i64>,
    pub bytes_out: Option<i64>,
    pub metadata: Option<Seq<char>>,
    pub updated_at: u64,
}

impl RowView {
    /// A row with every counter unset and no metadata.
    pub open spec fn blank() -> RowView {
        RowView {
            create_times: None,
            rows_in: None,
            rows_out: None,
            bytes_in: None,
            bytes_out: None,
            metadata: None,
            updated_at: 0,
        }
    }

    /// The stored value of a counter, `None` while it is unset.
    pub open spec fn counter(self, metric: Metric) -> Option<i64> {
        match metric {
            Metric::CreateTimes => self.create_times,
            Metric::RowsIn => self.rows_in,
            Metric::RowsOut => self.rows_out,
            Metric::BytesIn => self.bytes_in,
            Metric::BytesOut => self.bytes_out,
        }
    }

    /// The value of a counter, an unset one counting as zero.
    pub open spec fn total(self, metric: Metric) -> int {
        match self.counter(metric) {
            Some(value) => value as int,
            None => 0,
        }
    }

    /// The row with one counter replaced.
    pub open spec fn with_counter(self, metric: Metric, value: Option<i64>) -> RowView {
        match metric {
            Metric::CreateTimes => RowView { create_times: value, ..self },
            Metric::RowsIn => RowView { rows_in: value, ..self },
            Metric::RowsOut => RowView { rows_out: value, ..self },
            Metric::BytesIn => RowView { bytes_in: value, ..self },
            Metric::BytesOut => RowView { bytes_out: value, ..self },
        }
    }
}

impl View for Row {
    type V = RowView;

    open spec fn view(&self) -> RowView {
        RowView {
            create_times: self.create_times,
            rows_in: self.rows_in,
            rows_out: self.rows_out,
            bytes_in: self.bytes_in,
            bytes_out: self.bytes_out,
            metadata: self.metadata.deep_view(),
            updated_at: self.updated_at,
        }
    }
}

impl Row {
    /// A row with every counter unset and no metadata.
    pub fn blank() -> (row: Row)
        ensures
            row@ == RowView::blank(),
    {
        Row {
            create_times: None,
            rows_in: None,
            rows_out: None,
            bytes_in: None,
            bytes_out: None,
            metadata: None,
            updated_at: 0,
        }
    }

    /// A copy of the row.
    pub fn duplicate(&self) -> (row: Row)
        ensures
            row@ == self@,
    {
        Row {
            create_times: self.create_times,
            rows_in: self.rows_in,
            rows_out: self.rows_out,
            bytes_in: self.bytes_in,
            bytes_out: self.bytes_out,
            metadata: copy_document(&self.metadata),
            updated_at: self.updated_at,
        }
    }

    /// The stored value of a counter, `None` while it is unset.
    pub fn counter(&self, metric: Metric) -> (value: Option<i64>)
        ensures
            value == self@.counter(metric),
    {
        match metric {
            Metric::CreateTimes => self.create_times,
            Metric::RowsIn => self.rows_in,
            Metric::RowsOut => self.rows_out,
            Metric::BytesIn => self.bytes_in,
            Metric::BytesOut => self.bytes_out,
        }
    }

    /// Replaces one counter.
    pub fn set_counter(&mut self, metric: Metric, value: Option<i64>)
        ensures
            final(self)@ == old(self)@.with_counter(metric, value),
    {
        match metric {
            Metric::CreateTimes => self.create_times = value,
            Metric::RowsIn => self.rows_in = value,
            Metric::RowsOut => self.rows_out = value,
            Metric::BytesIn => self.bytes_in = value,
            Metric::BytesOut => self.bytes_out = value,
        }
    }
}

/// What a ledger holds: its rows by the wrapper's name.
pub type Rows = Map<Seq<char>, RowView>;

/// The row under `fdw_name`, a blank one where the ledger has none.
pub open spec fn row_or_blank(rows: Rows, fdw_name: Seq<char>) -> RowView {
    if rows.contains_key(fdw_name) {
        rows[fdw_name]
    } else {
        RowView::blank()
    }
}

/// The value of a counter, counting as zero where the row is missing or the
/// counter unset.
pub open spec fn total(rows: Rows, fdw_name: Seq<char>, metric: Metric) -> int {
    row_or_blank(rows, fdw_name).total(metric)
}

/// Whether adding `inc` to the counter keeps it within 64 bits.
pub open spec fn fits(rows: Rows, fdw_name: Seq<char>, metric: Metric, inc: i64) -> bool {
    i64::MIN <= total(rows, fdw_name, metric) + inc <= i64::MAX
}

/// The ledger after `inc` was added to a counter at time `now`: the row is made if
/// it was missing, an unset counter counts as zero, and nothing else changes but
/// the time of the last write.
pub open spec fn added(rows: Rows, fdw_name: Seq<char>, metric: Metric, inc: i64, now: u64) -> Rows
    recommends
        fits(rows, fdw_name, metric, inc),
{
    let row = row_or_blank(rows, fdw_name);
    let value = (row.total(metric) + inc) as i64;
    rows.insert(fdw_name, RowView { updated_at: now, ..row.with_counter(metric, Some(value)) })
}

/// The ledger after the metadata of a row was replaced at time `now`: the row is
/// made if it was missing, and its counters stay.
pub open spec fn replaced(rows: Rows, fdw_name: Seq<char>, metadata: Option<Seq<char>>, now: u64) -> Rows {
    let row = row_or_blank(rows, fdw_name);
    rows.insert(fdw_name, RowView { metadata: metadata, updated_at: now, ..row })
}

/// The metadata stored under `fdw_name`: `None` where there is no row or the row
/// has none.
pub open spec fn metadata_of(rows: Rows, fdw_name: Seq<char>) -> Option<Seq<char>> {
    if rows.contains_key(fdw_name) {
        rows[fdw_name].metadata
    } else {
        None
    }
}

/// The ledger table, held in memory.
pub struct Ledger {
    rows: StringHashMap<Row>,
}

impl View for Ledger {
    type V = Rows;

    closed spec fn view(&self) -> Rows {
        self.rows@.map_values(|row: Row| row@)
    }
}

impl Ledger {
    /// An empty ledger.
    pub fn new() -> (ledger: Ledger)
        ensures
            ledger@ == Map::<Seq<char>, RowView>::empty(),
    {
        let ledger = Ledger { rows: StringHashMap::new() };
        assert(ledger@ =~= Map::<Seq<char>, RowView>::empty());
        ledger
    }

    /// The number of rows.
    pub fn len(&self) -> (count: usize)
        ensures
            count == self@.len(),
    {
        broadcast use vstd::hash_map::group_hash_map_axioms;

        assert(self@.dom() =~= self.rows@.dom());
        self.rows.len()
    }

    /// Whether there is a row under `fdw_name`.
    pub fn contains(&self, fdw_name: &str) -> (found: bool)
        ensures
            found == self@.contains_key(fdw_name@),
    {
        self.rows.contains_key(fdw_name)
    }

    /// A copy of the row under `fdw_name`, if there is one.
    pub fn row(&self, fdw_name: &str) -> (found: Option<Row>)
        ensures
            match found {
                Some(row) => self@.contains_key(fdw_name@) && row@ == self@[fdw_name@],
                None => !self@.contains_key(fdw_name@),
            },
    {
        match self.rows.get(fdw_name) {
            Some(row) => Some(row.duplicate()),
            None => None,
        }
    }

    /// The stored value of a counter: `None` where there is no row or the counter
    /// is unset.
    pub fn counter(&self, fdw_name: &str, metric: Metric) -> (value: Option<i64>)
        ensures
            value == row_or_blank(self@, fdw_name@).counter(metric),
    {
        match self.rows.get(fdw_name) {
            Some(row) => row.counter(metric),
            None => None,
        }
    }

    /// The metadata stored under `fdw_name`.
    pub fn metadata(&self, fdw_name: &str) -> (document: Option<String>)
        ensures
            document.deep_view() == metadata_of(self@, fdw_name@),
    {
        match self.rows.get(fdw_name) {
            Some(row) => copy_document(&row.metadata),
            None => None,
        }
    }

    /// Adds `inc` to a counter, as one upsert does. Returns `false`, and leaves the
    /// ledger as it was, where the sum does not fit in 64 bits.
    pub fn add(&mut self, fdw_name: &str, metric: Metric, inc: i64, now: u64) -> (done: bool)
        ensures
            done == fits(old(self)@, fdw_name@, metric, inc),
            done ==> final(self)@ == added(old(self)@, fdw_name@, metric, inc, now),
            !done ==> final(self)@ == old(self)@,
    {
        let mut row = match self.rows.get(fdw_name) {
            Some(row) => row.duplicate(),
            None => Row::blank(),
        };
        let stored: i64 = match row.counter(metric) {
            Some(value) => value,
            None => 0,
        };
        match stored.checked_add(inc) {
            Some(value) => {
                row.set_counter(metric, Some(value));
                row.updated_at = now;
                self.rows.insert(String::from_str(fdw_name), row);
                assert(self@ =~= added(old(self)@, fdw_name@, metric, inc, now));
                true
            },
            None => false,
        }
    }

    /// Replaces the metadata of a row, as one upsert does.
    pub fn replace_metadata(&mut self, fdw_name: &str, metadata: Option<String>, now: u64)
        ensures
            final(self)@ == replaced(old(self)@, fdw_name@, metadata.deep_view(), now),
    {
        let mut row = match self.rows.get(fdw_name) {
            Some(row) => row.duplicate(),
            None => Row::blank(),
        };
        row.metadata = metadata;
        row.updated_at = now;
        self.rows.insert(String::from_str(fdw_name), row);
        assert(self@ =~= replaced(old(self)@, fdw_name@, metadata.deep_view(), now));
    }
}

} // verus!
