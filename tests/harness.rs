use blobstress::config::{
    insert_statement, lookup_statement, pragma_statements, schema_statements, HarnessConfig, PAYLOAD_LEN,
};
use blobstress::keys::{key_text, KeyCursor};
use blobstress::lookup::{first_match, resolve_lookup, FetchedRow, LookupOutcome};
use blobstress::plan::plan_tasks;
use blobstress::pool::{capacity_for, host_pool_capacity, LeaseGauge};
use blobstress::record::{make_record, random_payload};
use blobstress::task::{Action, Event, Phase, Report, Role, StatementResult, TaskMachine};

fn row(key: &str, len: usize) -> FetchedRow {
    FetchedRow { key: key.to_string(), payload_len: len }
}

/// Runs one full writer iteration and returns the record it asked to insert.
fn writer_iteration(m: &mut TaskMachine) -> (String, usize) {
    assert!(matches!(m.step(Event::Ready), Action::Acquire));
    let (key, len) = match m.step(Event::LeaseGranted) {
        Action::Insert(rec) => (rec.key.clone(), rec.payload.len()),
        _ => panic!("writer did not insert"),
    };
    match m.step(Event::Completed(StatementResult::Written)) {
        Action::Finish { report: Report::Inserted { key: k }, release, pause_ms } => {
            assert_eq!(k, key);
            assert!(release);
            assert_eq!(pause_ms, 10);
        }
        _ => panic!("writer did not report its insert"),
    }
    (key, len)
}

/// Runs one reader iteration against the given rows and returns its report.
fn reader_iteration(m: &mut TaskMachine, rows: Vec<FetchedRow>) -> Report {
    assert!(matches!(m.step(Event::Ready), Action::Acquire));
    let key = match m.step(Event::LeaseGranted) {
        Action::Lookup { key } => key,
        _ => panic!("reader did not look up"),
    };
    let matching: Vec<FetchedRow> = rows.into_iter().filter(|r| r.key == key).collect();
    match m.step(Event::Completed(StatementResult::Fetched(matching))) {
        Action::Finish { report, release, .. } => {
            assert!(release);
            report
        }
        _ => panic!("reader did not report"),
    }
}

#[test]
fn key_text_is_decimal() {
    assert_eq!(key_text(0), "0");
    assert_eq!(key_text(7), "7");
    assert_eq!(key_text(10), "10");
    assert_eq!(key_text(60000), "60000");
    assert_eq!(key_text(u64::MAX), u64::MAX.to_string());
}

#[test]
fn cursor_wraps_before_use() {
    let mut c = KeyCursor::new(3);
    let keys: Vec<u64> = (0..7).map(|_| c.next_key()).collect();
    assert_eq!(keys, vec![0, 1, 2, 0, 1, 2, 0]);
    let mut one = KeyCursor::new(1);
    assert_eq!(one.next_key(), 0);
    assert_eq!(one.next_key(), 0);
}

#[test]
fn standard_config_values() {
    let c = HarnessConfig::standard();
    assert_eq!(PAYLOAD_LEN, 4096);
    assert_eq!(c.key_modulus, 3);
    assert_eq!(c.pause_ms, 10);
    assert_eq!(c.task_deadline_ms, 20000);
    assert_eq!(c.run_ms, 20000);
    assert_eq!(c.writer_tasks, 2);
    assert_eq!(c.reader_tasks, 2);
    assert_eq!(c.busy_timeout_ms, 60000);
}

#[test]
fn setup_statements_are_exact() {
    assert_eq!(
        schema_statements(),
        vec![
            "CREATE TABLE IF NOT EXISTS data (source TEXT, data BLOB)".to_string(),
            "CREATE INDEX IF NOT EXISTS data_index ON data(source)".to_string(),
        ]
    );
    assert_eq!(
        pragma_statements(&HarnessConfig::standard()),
        vec![
            "PRAGMA journal_mode=WAL".to_string(),
            "PRAGMA wal_autocheckpoint=1000".to_string(),
            "PRAGMA busy_timeout=60000".to_string(),
        ]
    );
}

#[test]
fn row_statements_are_exact() {
    assert_eq!(insert_statement(), "INSERT INTO data VALUES (?, ?)");
    assert_eq!(
        lookup_statement(),
        "SELECT source, data FROM data WHERE source = ? ORDER BY rowid DESC LIMIT 1"
    );
}

#[test]
fn pool_capacity_follows_parallelism() {
    assert_eq!(capacity_for(0), 1);
    assert_eq!(capacity_for(1), 1);
    assert_eq!(capacity_for(8), 8);
    assert_eq!(capacity_for(u32::MAX as usize), u32::MAX);
    assert_eq!(capacity_for(u32::MAX as usize + 1), u32::MAX);
    assert!(host_pool_capacity() >= 1);
}

#[test]
fn gauge_never_exceeds_capacity() {
    let mut g = LeaseGauge::new(2);
    assert_eq!(g.available(), 2);
    assert!(g.try_lease());
    assert!(g.try_lease());
    assert!(!g.try_lease());
    assert_eq!(g.leased(), 2);
    assert_eq!(g.available(), 0);
    g.release();
    assert_eq!(g.available(), 1);
    assert!(g.try_lease());
    assert_eq!(g.leased(), g.capacity());
}

#[test]
fn plan_starts_writers_then_readers() {
    let roles = plan_tasks(&HarnessConfig::standard());
    assert_eq!(roles, vec![Role::Writer, Role::Writer, Role::Reader, Role::Reader]);
}

#[test]
fn payload_has_fixed_length_and_random_bytes() {
    let p = random_payload(PAYLOAD_LEN);
    assert_eq!(p.len(), 4096);
    assert!(p.iter().any(|b| *b != 0));
    let q = random_payload(PAYLOAD_LEN);
    assert_ne!(p, q);
    assert_eq!(random_payload(0).len(), 0);
}

#[test]
fn record_holds_key_text_and_payload() {
    let r = make_record(2, 4096);
    assert_eq!(r.key, "2");
    assert_eq!(r.payload.len(), 4096);
}

#[test]
fn first_writer_iteration_writes_key_zero() {
    let config = HarnessConfig::standard();
    let mut w = TaskMachine::new(Role::Writer, &config);
    assert_eq!(writer_iteration(&mut w), ("0".to_string(), 4096));
    let rest: Vec<String> = (0..3).map(|_| writer_iteration(&mut w).0).collect();
    assert_eq!(rest, vec!["1", "2", "0"]);
}

#[test]
fn reader_finds_what_writer_wrote() {
    let config = HarnessConfig::standard();
    let mut w = TaskMachine::new(Role::Writer, &config);
    let rows: Vec<FetchedRow> = (0..4)
        .map(|_| {
            let (k, n) = writer_iteration(&mut w);
            FetchedRow { key: k, payload_len: n }
        })
        .collect();
    let mut r = TaskMachine::new(Role::Reader, &config);
    match reader_iteration(&mut r, rows) {
        Report::Found { key, len } => {
            assert_eq!(key, "0");
            assert_eq!(len, 4096);
        }
        _ => panic!("expected a record for key 0"),
    }
}

#[test]
fn empty_store_reports_not_found() {
    let config = HarnessConfig::standard();
    let mut r = TaskMachine::new(Role::Reader, &config);
    for expected in ["0", "1", "2", "0"] {
        match reader_iteration(&mut r, Vec::new()) {
            Report::NotFound { key } => assert_eq!(key, expected),
            _ => panic!("expected not found"),
        }
    }
}

#[test]
fn lookup_of_absent_key_is_not_found() {
    let rows = vec![row("1", 4096), row("2", 4096)];
    assert_eq!(resolve_lookup(&"0".to_string(), &rows), LookupOutcome::NotFound);
    assert_eq!(first_match(&"0".to_string(), &rows), None);
}

#[test]
fn lookup_skips_rows_of_other_keys() {
    let rows = vec![row("1", 10), row("0", 20), row("0", 30)];
    assert_eq!(first_match(&"0".to_string(), &rows), Some(1));
    assert_eq!(resolve_lookup(&"0".to_string(), &rows), LookupOutcome::Found { len: 20 });
    assert_eq!(resolve_lookup(&"1".to_string(), &rows), LookupOutcome::Found { len: 10 });
}

#[test]
fn store_error_is_reported_and_loop_goes_on() {
    let config = HarnessConfig::standard();
    let mut w = TaskMachine::new(Role::Writer, &config);
    assert!(matches!(w.step(Event::Ready), Action::Acquire));
    assert!(matches!(w.step(Event::LeaseGranted), Action::Insert(_)));
    match w.step(Event::Completed(StatementResult::Failed("database is locked".to_string()))) {
        Action::Finish { report: Report::InsertFailed { key, reason }, release, .. } => {
            assert_eq!(key, "0");
            assert_eq!(reason, "database is locked");
            assert!(release);
        }
        _ => panic!("expected a failed insert"),
    }
    assert_eq!(w.phase(), Phase::Resting);
    assert_eq!(writer_iteration(&mut w).0, "1");
}

#[test]
fn failed_lease_holds_nothing() {
    let config = HarnessConfig::standard();
    let mut r = TaskMachine::new(Role::Reader, &config);
    assert!(matches!(r.step(Event::Ready), Action::Acquire));
    match r.step(Event::LeaseFailed("pool timed out".to_string())) {
        Action::Finish { report: Report::LookupFailed { key, reason }, release, .. } => {
            assert_eq!(key, "0");
            assert_eq!(reason, "pool timed out");
            assert!(!release);
        }
        _ => panic!("expected a failed lookup"),
    }
    assert!(!r.holds_lease());
}

#[test]
fn deadline_cancels_and_releases() {
    let config = HarnessConfig::standard();
    let mut w = TaskMachine::new(Role::Writer, &config);
    let mut g = LeaseGauge::new(1);
    assert!(matches!(w.step(Event::Ready), Action::Acquire));
    assert!(g.try_lease());
    assert!(matches!(w.step(Event::LeaseGranted), Action::Insert(_)));
    assert!(w.holds_lease());
    match w.step(Event::DeadlinePassed) {
        Action::Stop { release } => {
            assert!(release);
            g.release();
        }
        _ => panic!("expected the task to stop"),
    }
    assert_eq!(g.available(), g.capacity());
    assert_eq!(w.phase(), Phase::Cancelled);
    assert!(!w.holds_lease());
    assert!(matches!(w.step(Event::Ready), Action::Ignore));
    assert!(matches!(w.step(Event::DeadlinePassed), Action::Ignore));
}

#[test]
fn deadline_while_resting_releases_nothing() {
    let config = HarnessConfig::standard();
    let mut r = TaskMachine::new(Role::Reader, &config);
    reader_iteration(&mut r, Vec::new());
    assert!(matches!(r.step(Event::DeadlinePassed), Action::Stop { release: false }));
}

#[test]
fn out_of_order_events_are_ignored() {
    let config = HarnessConfig::standard();
    let mut r = TaskMachine::new(Role::Reader, &config);
    assert!(matches!(r.step(Event::LeaseGranted), Action::Ignore));
    assert!(matches!(r.step(Event::Completed(StatementResult::Written)), Action::Ignore));
    assert_eq!(r.phase(), Phase::Idle);
    assert!(matches!(r.step(Event::Ready), Action::Acquire));
    assert!(matches!(r.step(Event::Ready), Action::Ignore));
    assert!(matches!(r.step(Event::LeaseGranted), Action::Lookup { .. }));
    assert!(matches!(r.step(Event::Completed(StatementResult::Written)), Action::Ignore));
    assert_eq!(r.phase(), Phase::Executing);
}
