use fdw_stats::client::{Outcome, Reply, StatsError};
use fdw_stats::ledger::{Ledger, Row};
use fdw_stats::metric::Metric;
use fdw_stats::session::{get_metadata, inc_stats, run, set_metadata, Session};
use fdw_stats::client::Call;
use fdw_stats::sql::Statement;

const TABLE: &str = "public.wrappers_fdw_stats";

fn text(s: &str) -> String {
    String::from(s)
}

fn read_only() -> Session {
    let mut session = Session::new(TABLE);
    session.mode = Reply::Value(text("on"));
    session
}

#[test]
fn a_new_session_is_writable_and_empty() {
    let session = Session::new(TABLE);
    assert_eq!(session.ledger.len(), 0);
    assert_eq!(session.mode, Reply::Value(text("off")));
    assert_eq!(session.table, Reply::Value(text(TABLE)));
    assert!(!session.failing);
    assert_eq!(session.now, 0);
}

#[test]
fn the_first_increment_makes_exactly_one_row() {
    for metric in Metric::all() {
        let mut session = Session::new(TABLE);
        session.now = 11;
        assert_eq!(inc_stats(&mut session, "fresh", metric, 6), Outcome::Written);
        assert_eq!(session.ledger.len(), 1);
        let mut expected = Row::blank();
        expected.set_counter(metric, Some(6));
        expected.updated_at = 11;
        assert_eq!(session.ledger.row("fresh"), Some(expected));
        for other in Metric::all() {
            if other != metric {
                assert_eq!(session.ledger.counter("fresh", other), None);
            }
        }
    }
}

#[test]
fn the_first_increment_leaves_other_rows_alone() {
    let mut session = Session::new(TABLE);
    assert_eq!(inc_stats(&mut session, "old", Metric::RowsIn, 1), Outcome::Written);
    let before = session.ledger.row("old");
    session.now = 3;
    assert_eq!(inc_stats(&mut session, "fresh", Metric::RowsIn, 2), Outcome::Written);
    assert_eq!(session.ledger.len(), 2);
    assert_eq!(session.ledger.row("old"), before);
}

#[test]
fn three_and_five_settle_at_eight() {
    let mut session = Session::new(TABLE);
    assert_eq!(inc_stats(&mut session, "fdw", Metric::RowsIn, 3), Outcome::Written);
    assert_eq!(inc_stats(&mut session, "fdw", Metric::RowsIn, 5), Outcome::Written);
    assert_eq!(session.ledger.counter("fdw", Metric::RowsIn), Some(8));
    let mut session = Session::new(TABLE);
    assert_eq!(inc_stats(&mut session, "fdw", Metric::RowsIn, 5), Outcome::Written);
    assert_eq!(inc_stats(&mut session, "fdw", Metric::RowsIn, 3), Outcome::Written);
    assert_eq!(session.ledger.counter("fdw", Metric::RowsIn), Some(8));
}

#[test]
fn increments_sum_up() {
    let deltas: [i64; 6] = [4, -9, 250, 0, 1, 1_000_000_007];
    let mut session = Session::new(TABLE);
    for delta in deltas {
        assert_eq!(inc_stats(&mut session, "fdw", Metric::BytesOut, delta), Outcome::Written);
    }
    assert_eq!(session.ledger.counter("fdw", Metric::BytesOut), Some(1_000_000_253));
    assert_eq!(session.ledger.len(), 1);
}

#[test]
fn sessions_taking_turns_lose_no_increment() {
    let sessions: usize = 4;
    let total: usize = 100;
    let mut ledger = Ledger::new();
    for turn in 0..total {
        let mut session = Session::new(TABLE);
        session.now = (turn % sessions) as u64;
        session.ledger = ledger;
        assert_eq!(inc_stats(&mut session, "shared", Metric::CreateTimes, 1), Outcome::Written);
        if turn % 3 == 0 {
            assert_eq!(inc_stats(&mut session, "shared", Metric::RowsIn, 2), Outcome::Written);
            assert_eq!(set_metadata(&mut session, "shared", None), Outcome::Written);
            assert_eq!(inc_stats(&mut session, "apart", Metric::CreateTimes, 5), Outcome::Written);
        }
        ledger = session.ledger;
    }
    assert_eq!(ledger.counter("shared", Metric::CreateTimes), Some(100));
    assert_eq!(ledger.counter("shared", Metric::RowsIn), Some(68));
    assert_eq!(ledger.counter("apart", Metric::CreateTimes), Some(170));
    assert_eq!(ledger.len(), 2);
}

#[test]
fn the_order_of_the_turns_does_not_matter() {
    let turns: [(&str, Metric, i64); 5] = [
        ("a", Metric::RowsIn, 3),
        ("b", Metric::RowsIn, 10),
        ("a", Metric::RowsOut, -2),
        ("a", Metric::RowsIn, 5),
        ("b", Metric::RowsIn, -10),
    ];
    let mut forward = Session::new(TABLE);
    for (name, metric, inc) in turns.iter() {
        assert_eq!(inc_stats(&mut forward, name, *metric, *inc), Outcome::Written);
    }
    let mut backward = Session::new(TABLE);
    for (name, metric, inc) in turns.iter().rev() {
        assert_eq!(inc_stats(&mut backward, name, *metric, *inc), Outcome::Written);
    }
    assert_eq!(forward.ledger.row("a"), backward.ledger.row("a"));
    assert_eq!(forward.ledger.row("b"), backward.ledger.row("b"));
    assert_eq!(forward.ledger.counter("a", Metric::RowsIn), Some(8));
    assert_eq!(forward.ledger.counter("a", Metric::RowsOut), Some(-2));
    assert_eq!(forward.ledger.counter("b", Metric::RowsIn), Some(0));
}

#[test]
fn a_read_only_session_skips_the_increment() {
    let mut session = read_only();
    assert_eq!(inc_stats(&mut session, "fdw", Metric::RowsIn, 3), Outcome::Skipped);
    assert_eq!(session.ledger.len(), 0);
    assert_eq!(session.ledger.row("fdw"), None);
}

#[test]
fn a_read_only_session_leaves_a_row_unchanged() {
    let mut session = Session::new(TABLE);
    assert_eq!(inc_stats(&mut session, "fdw", Metric::RowsIn, 3), Outcome::Written);
    assert_eq!(set_metadata(&mut session, "fdw", Some(text("{\"a\":1}"))), Outcome::Written);
    let before = session.ledger.row("fdw");
    session.mode = Reply::Value(text("on"));
    session.now = 50;
    assert_eq!(inc_stats(&mut session, "fdw", Metric::RowsIn, 3), Outcome::Skipped);
    assert_eq!(set_metadata(&mut session, "fdw", None), Outcome::Skipped);
    assert_eq!(set_metadata(&mut session, "fdw", Some(text("{\"b\":2}"))), Outcome::Skipped);
    assert_eq!(session.ledger.row("fdw"), before);
    assert_eq!(session.ledger.len(), 1);
}

#[test]
fn a_read_only_session_skips_the_metadata_write() {
    let mut session = read_only();
    assert_eq!(set_metadata(&mut session, "fdw", Some(text("{}"))), Outcome::Skipped);
    assert_eq!(session.ledger.len(), 0);
}

#[test]
fn a_read_only_session_does_not_even_look_for_the_table() {
    let mut session = read_only();
    session.table = Reply::Null;
    session.failing = true;
    assert_eq!(inc_stats(&mut session, "fdw", Metric::RowsIn, 3), Outcome::Skipped);
    assert_eq!(set_metadata(&mut session, "fdw", None), Outcome::Skipped);
}

#[test]
fn a_read_only_session_still_reads() {
    let mut session = Session::new(TABLE);
    assert_eq!(set_metadata(&mut session, "fdw", Some(text("{\"a\":1}"))), Outcome::Written);
    session.mode = Reply::Value(text("on"));
    assert_eq!(get_metadata(&mut session, "fdw"), Outcome::Metadata(Some(text("{\"a\":1}"))));
}

#[test]
fn an_unclear_mode_lets_the_write_through() {
    for mode in [Reply::Null, Reply::Error(text("no answer")), Reply::Value(text("On"))] {
        let mut session = Session::new(TABLE);
        session.mode = mode;
        assert_eq!(inc_stats(&mut session, "fdw", Metric::RowsIn, 3), Outcome::Written);
        assert_eq!(set_metadata(&mut session, "fdw", Some(text("{}"))), Outcome::Written);
        assert_eq!(session.ledger.counter("fdw", Metric::RowsIn), Some(3));
        assert_eq!(session.ledger.metadata("fdw"), Some(text("{}")));
    }
}

#[test]
fn an_unknown_name_has_no_metadata() {
    let mut session = Session::new(TABLE);
    assert_eq!(get_metadata(&mut session, "nobody"), Outcome::Metadata(None));
    assert_eq!(session.ledger.len(), 0);
}

#[test]
fn a_row_without_metadata_has_none() {
    let mut session = Session::new(TABLE);
    assert_eq!(inc_stats(&mut session, "fdw", Metric::RowsIn, 3), Outcome::Written);
    assert_eq!(get_metadata(&mut session, "fdw"), Outcome::Metadata(None));
}

#[test]
fn what_was_written_is_read() {
    let mut session = Session::new(TABLE);
    let document = text("{\"region\":\"eu\",\"n\":[1,2,3]}");
    assert_eq!(set_metadata(&mut session, "fdw", Some(document.clone())), Outcome::Written);
    assert_eq!(get_metadata(&mut session, "fdw"), Outcome::Metadata(Some(document)));
    assert_eq!(get_metadata(&mut session, "other"), Outcome::Metadata(None));
}

#[test]
fn writing_none_clears() {
    let mut session = Session::new(TABLE);
    assert_eq!(set_metadata(&mut session, "fdw", Some(text("{\"a\":1}"))), Outcome::Written);
    assert_eq!(set_metadata(&mut session, "fdw", None), Outcome::Written);
    assert_eq!(get_metadata(&mut session, "fdw"), Outcome::Metadata(None));
    let once = session.ledger.row("fdw");
    assert_eq!(set_metadata(&mut session, "fdw", None), Outcome::Written);
    assert_eq!(get_metadata(&mut session, "fdw"), Outcome::Metadata(None));
    assert_eq!(session.ledger.row("fdw"), once);
    assert_eq!(session.ledger.len(), 1);
}

#[test]
fn a_write_replaces_and_does_not_merge() {
    let mut session = Session::new(TABLE);
    assert_eq!(set_metadata(&mut session, "fdw", Some(text("{\"a\":1}"))), Outcome::Written);
    assert_eq!(set_metadata(&mut session, "fdw", Some(text("{\"b\":2}"))), Outcome::Written);
    assert_eq!(session.ledger.metadata("fdw"), Some(text("{\"b\":2}")));
    assert_eq!(get_metadata(&mut session, "fdw"), Outcome::Metadata(Some(text("{\"b\":2}"))));
}

#[test]
fn a_metadata_write_makes_the_row_and_stamps_it() {
    let mut session = Session::new(TABLE);
    session.now = 1234;
    assert_eq!(set_metadata(&mut session, "fdw", Some(text("[]"))), Outcome::Written);
    let mut expected = Row::blank();
    expected.metadata = Some(text("[]"));
    expected.updated_at = 1234;
    assert_eq!(session.ledger.row("fdw"), Some(expected));
}

#[test]
fn every_write_refreshes_the_time() {
    let mut session = Session::new(TABLE);
    session.now = 1;
    assert_eq!(inc_stats(&mut session, "fdw", Metric::RowsIn, 3), Outcome::Written);
    assert_eq!(session.ledger.row("fdw").map(|row| row.updated_at), Some(1));
    session.now = 2;
    assert_eq!(inc_stats(&mut session, "fdw", Metric::RowsOut, 3), Outcome::Written);
    assert_eq!(session.ledger.row("fdw").map(|row| row.updated_at), Some(2));
    session.now = 3;
    assert_eq!(set_metadata(&mut session, "fdw", None), Outcome::Written);
    assert_eq!(session.ledger.row("fdw").map(|row| row.updated_at), Some(3));
    session.now = 4;
    assert_eq!(get_metadata(&mut session, "fdw"), Outcome::Metadata(None));
    assert_eq!(session.ledger.row("fdw").map(|row| row.updated_at), Some(3));
}

#[test]
fn a_failed_metadata_write_only_warns() {
    let mut session = Session::new(TABLE);
    assert_eq!(set_metadata(&mut session, "fdw", Some(text("{\"a\":1}"))), Outcome::Written);
    session.failing = true;
    let outcome = set_metadata(&mut session, "fdw", Some(text("{\"b\":2}")));
    assert_eq!(
        outcome,
        Outcome::Warned(text("set fdw stats metadata failed: statement failed"))
    );
    assert!(!outcome.is_fatal());
    assert_eq!(session.ledger.metadata("fdw"), Some(text("{\"a\":1}")));
}

#[test]
fn a_failed_increment_is_fatal() {
    let mut session = Session::new(TABLE);
    assert_eq!(inc_stats(&mut session, "fdw", Metric::RowsIn, 3), Outcome::Written);
    session.failing = true;
    let outcome = inc_stats(&mut session, "fdw", Metric::RowsIn, 3);
    assert_eq!(outcome, Outcome::Failed(StatsError::InsertFailed(text("statement failed"))));
    assert!(outcome.is_fatal());
    assert_eq!(session.ledger.counter("fdw", Metric::RowsIn), Some(3));
}

#[test]
fn a_failed_read_is_no_metadata() {
    let mut session = Session::new(TABLE);
    assert_eq!(set_metadata(&mut session, "fdw", Some(text("{\"a\":1}"))), Outcome::Written);
    session.failing = true;
    assert_eq!(get_metadata(&mut session, "fdw"), Outcome::Metadata(None));
}

#[test]
fn an_increment_out_of_range_is_fatal() {
    let mut session = Session::new(TABLE);
    assert_eq!(inc_stats(&mut session, "fdw", Metric::BytesIn, i64::MAX), Outcome::Written);
    assert_eq!(
        inc_stats(&mut session, "fdw", Metric::BytesIn, 1),
        Outcome::Failed(StatsError::InsertFailed(text("bigint out of range")))
    );
    assert_eq!(session.ledger.counter("fdw", Metric::BytesIn), Some(i64::MAX));
}

#[test]
fn a_missing_extension_is_fatal_for_every_call() {
    let mut session = Session::new(TABLE);
    session.table = Reply::Error(text("InvalidPosition"));
    let error = StatsError::ExtensionMissing(text("InvalidPosition"));
    assert_eq!(inc_stats(&mut session, "fdw", Metric::RowsIn, 1), Outcome::Failed(error.clone()));
    assert_eq!(get_metadata(&mut session, "fdw"), Outcome::Failed(error.clone()));
    assert_eq!(set_metadata(&mut session, "fdw", None), Outcome::Failed(error));
    assert_eq!(session.ledger.len(), 0);
}

#[test]
fn a_missing_table_is_fatal_for_every_call() {
    let mut session = Session::new(TABLE);
    session.table = Reply::Null;
    assert_eq!(
        inc_stats(&mut session, "fdw", Metric::RowsIn, 1),
        Outcome::Failed(StatsError::TableMissing)
    );
    assert_eq!(get_metadata(&mut session, "fdw"), Outcome::Failed(StatsError::TableMissing));
    assert_eq!(
        set_metadata(&mut session, "fdw", Some(text("{}"))),
        Outcome::Failed(StatsError::TableMissing)
    );
    assert_eq!(session.ledger.len(), 0);
}

#[test]
fn perform_answers_each_statement() {
    let mut session = Session::new(TABLE);
    session.now = 8;
    assert_eq!(session.perform(&Statement::ShowReadOnly), Reply::Value(text("off")));
    assert_eq!(session.perform(&Statement::FindTable), Reply::Value(text(TABLE)));
    let select = Statement::SelectMetadata { table: text(TABLE), fdw_name: text("fdw") };
    assert_eq!(session.perform(&select), Reply::Null);
    let upsert = Statement::UpsertMetadata {
        table: text(TABLE),
        fdw_name: text("fdw"),
        metadata: Some(text("{\"a\":1}")),
    };
    assert_eq!(session.perform(&upsert), Reply::Null);
    assert_eq!(session.perform(&select), Reply::Value(text("{\"a\":1}")));
    let add = Statement::AddToCounter {
        table: text(TABLE),
        fdw_name: text("fdw"),
        metric: Metric::RowsIn,
        inc: i64::MAX,
    };
    assert_eq!(session.perform(&add), Reply::Null);
    assert_eq!(session.perform(&add), Reply::Error(text("bigint out of range")));
    session.failing = true;
    assert_eq!(session.perform(&add), Reply::Error(text("statement failed")));
    assert_eq!(session.perform(&upsert), Reply::Error(text("statement failed")));
    assert_eq!(session.perform(&select), Reply::Error(text("statement failed")));
    assert_eq!(session.perform(&Statement::ShowReadOnly), Reply::Value(text("off")));
    assert_eq!(session.ledger.counter("fdw", Metric::RowsIn), Some(i64::MAX));
}

#[test]
fn run_takes_a_call_to_its_outcome() {
    let mut session = Session::new(TABLE);
    let call = Call::IncStats { fdw_name: text("fdw"), metric: Metric::RowsOut, inc: 12 };
    assert_eq!(run(&mut session, &call), Outcome::Written);
    assert_eq!(run(&mut session, &call), Outcome::Written);
    assert_eq!(session.ledger.counter("fdw", Metric::RowsOut), Some(24));
    let call = Call::SetMetadata { fdw_name: text("fdw"), metadata: Some(text("7")) };
    assert_eq!(run(&mut session, &call), Outcome::Written);
    let call = Call::GetMetadata { fdw_name: text("fdw") };
    assert_eq!(run(&mut session, &call), Outcome::Metadata(Some(text("7"))));
}
