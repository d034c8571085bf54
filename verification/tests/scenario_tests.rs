//! Whole-cycle walks of the worker and router models, mirroring how the
//! daemon's shell drives them through maintenance, isolation, rollback,
//! respawn and file-replacement sequences.

use skylinedb::protocol::{Response, ResponseData, Statement, TransactionMode};
use skylinedb::router::{EnsureOutcome, Router};
use skylinedb::worker::{
    apply_prepare, apply_reopen, finish_atomic_batch, handle_close_database, handle_ping,
    plan_exec_batch, plan_prepare, plan_reopen, worker_opened, AtomicOutcome, BatchPlan,
    Lifecycle, ReopenOutcome,
};

fn stmt(sql: &str) -> Statement {
    Statement { sql: String::from(sql), params: vec![] }
}

fn code_of(resp: &Response) -> Option<&str> {
    match resp {
        Response::Error { code: Some(c), .. } => Some(c.as_str()),
        _ => None,
    }
}

fn run_ok_batch(m: &mut skylinedb::worker::WorkerModel, sqls: &[&str], rows: Vec<u64>) -> Response {
    let batch: Vec<Statement> = sqls.iter().map(|s| stmt(s)).collect();
    match plan_exec_batch(m, &batch, TransactionMode::Atomic) {
        BatchPlan::RunAtomic => finish_atomic_batch(m, AtomicOutcome::Committed { rows }),
        other => panic!("expected the batch to reach the engine, got {:?}", other),
    }
}

#[test]
fn maintenance_cycle_walks_open_preparing_closed_open() {
    // A fresh database opens at revision 0; create a table, insert a row.
    let mut m = worker_opened(0);
    let r = run_ok_batch(&mut m, &["CREATE TABLE test (id INTEGER)"], vec![0]);
    assert_eq!(
        r,
        Response::Success { data: ResponseData::ExecBatch { rev: 1, rows_affected: 0 } }
    );
    let r = run_ok_batch(&mut m, &["INSERT INTO test VALUES (1)"], vec![1]);
    assert_eq!(
        r,
        Response::Success { data: ResponseData::ExecBatch { rev: 2, rows_affected: 1 } }
    );

    // Prepare for maintenance: checkpoint succeeds.
    assert!(plan_prepare(&m).is_none());
    let r = apply_prepare(&mut m, Ok(()));
    assert_eq!(
        r,
        Response::Success { data: ResponseData::PrepareForMaintenance { checkpointed: true } }
    );

    // Close: the file may now be replaced.
    let (r, _) = handle_close_database(&mut m);
    assert_eq!(r, Response::Success { data: ResponseData::CloseDatabase { closed: true } });

    // Writes are blocked while closed.
    let batch = vec![stmt("INSERT INTO test VALUES (2)")];
    match plan_exec_batch(&m, &batch, TransactionMode::Atomic) {
        BatchPlan::Reject(e) => assert_eq!(code_of(&e), Some("DATABASE_CLOSED")),
        other => panic!("expected the write to be blocked, got {:?}", other),
    }

    // Reopen: the untouched file still holds revision 2.
    assert!(plan_reopen(&m).is_none());
    let r = apply_reopen(&mut m, ReopenOutcome::Opened { rev: 2 });
    assert_eq!(
        r,
        Response::Success { data: ResponseData::ReopenDatabase { reopened: true, rev: 2 } }
    );

    // A later insert continues the revision sequence.
    let r = run_ok_batch(&mut m, &["INSERT INTO test VALUES (2)"], vec![1]);
    assert_eq!(
        r,
        Response::Success { data: ResponseData::ExecBatch { rev: 3, rows_affected: 1 } }
    );
}

#[test]
fn closed_database_blocks_writes_while_others_continue() {
    let mut a = worker_opened(0);
    let mut b = worker_opened(0);
    run_ok_batch(&mut a, &["CREATE TABLE test (id INTEGER)"], vec![0]);
    run_ok_batch(&mut b, &["CREATE TABLE test (id INTEGER)"], vec![0]);

    apply_prepare(&mut a, Ok(()));
    handle_close_database(&mut a);

    let batch = vec![stmt("INSERT INTO test VALUES (1)")];
    match plan_exec_batch(&a, &batch, TransactionMode::Atomic) {
        BatchPlan::Reject(e) => assert_eq!(code_of(&e), Some("DATABASE_CLOSED")),
        other => panic!("expected the closed database to refuse, got {:?}", other),
    }

    let r = run_ok_batch(&mut b, &["INSERT INTO test VALUES (1)"], vec![1]);
    assert_eq!(
        r,
        Response::Success { data: ResponseData::ExecBatch { rev: 2, rows_affected: 1 } }
    );
    assert_eq!(a.lifecycle, Lifecycle::Closed);
    assert_eq!(b.lifecycle, Lifecycle::Open);
}

#[test]
fn failed_statement_rolls_the_batch_back_and_keeps_rev() {
    let mut m = worker_opened(0);
    run_ok_batch(&mut m, &["CREATE TABLE test (id INTEGER)"], vec![0]);
    let rev_before = m.row.rev;

    // Three statements; the engine refuses the one at zero-based index 1.
    let batch = vec![
        stmt("INSERT INTO test VALUES (1)"),
        stmt("INSERT INTO nowhere VALUES (2)"),
        stmt("INSERT INTO test VALUES (3)"),
    ];
    let plan = plan_exec_batch(&m, &batch, TransactionMode::Atomic);
    assert_eq!(plan, BatchPlan::RunAtomic);
    let r = finish_atomic_batch(
        &mut m,
        AtomicOutcome::StatementFailed {
            index: 1,
            message: String::from("no such table: nowhere"),
        },
    );
    match &r {
        Response::Error { message, code } => {
            assert!(message.starts_with("Statement 1:"));
            assert_eq!(code.as_deref(), Some("SQL_ERROR"));
        },
        other => panic!("expected an error, got {:?}", other),
    }

    // A ping still observes the pre-batch revision.
    let ping = handle_ping(&m, String::from("v"), String::from("p"));
    match ping {
        Response::Success { data: ResponseData::Ping { rev, .. } } => {
            assert_eq!(rev, rev_before)
        },
        other => panic!("expected a ping response, got {:?}", other),
    }
}

#[test]
fn idle_exit_and_respawn_preserve_the_revision() {
    let mut router = Router::new(String::from("/data"));
    let name = String::from("c.db");

    // First request: the router spawns a worker, which opens at revision 0
    // and serves one write.
    assert_eq!(router.ensure_worker(&name), EnsureOutcome::Spawned { generation: 0 });
    let mut w = worker_opened(0);
    let r = run_ok_batch(&mut w, &["CREATE TABLE test (id INTEGER)"], vec![0]);
    assert_eq!(
        r,
        Response::Success { data: ResponseData::ExecBatch { rev: 1, rows_affected: 0 } }
    );
    let persisted = w.row.rev;

    // The idle timeout elapses; the worker removes itself under its stamp.
    assert!(skylinedb::worker::idle_should_exit(
        skylinedb::worker::WORKER_IDLE_TIMEOUT_SECS + 1,
        true
    ));
    assert!(router.remove_worker_if_generation(&name, 0));

    // The next request respawns a worker; it reads the persisted revision.
    assert_eq!(router.ensure_worker(&name), EnsureOutcome::Spawned { generation: 1 });
    let w2 = worker_opened(persisted);
    let ping = handle_ping(&w2, String::from("v"), String::from("/data/c.db"));
    match ping {
        Response::Success { data: ResponseData::Ping { rev, .. } } => assert_eq!(rev, 1),
        other => panic!("expected a ping response, got {:?}", other),
    }
}

#[test]
fn file_replacement_round_trip() {
    // Populate d.db, prepare, close.
    let mut m = worker_opened(0);
    run_ok_batch(&mut m, &["CREATE TABLE test (id INTEGER)"], vec![0]);
    run_ok_batch(&mut m, &["INSERT INTO test VALUES (1)"], vec![1]);
    apply_prepare(&mut m, Ok(()));
    handle_close_database(&mut m);

    // The operator overlays the file with a backup whose meta row holds
    // revision 1; reopening reads that revision.
    let r = apply_reopen(&mut m, ReopenOutcome::Opened { rev: 1 });
    assert_eq!(
        r,
        Response::Success { data: ResponseData::ReopenDatabase { reopened: true, rev: 1 } }
    );

    // A read-only batch reports zero affected rows and still succeeds.
    let r = run_ok_batch(&mut m, &["SELECT * FROM test"], vec![0]);
    match r {
        Response::Success { data: ResponseData::ExecBatch { rows_affected, .. } } => {
            assert_eq!(rows_affected, 0)
        },
        other => panic!("expected a batch response, got {:?}", other),
    }
}
