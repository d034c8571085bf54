//! The per-database worker: one task exclusively owns one database file,
//! serializes its writes, and walks the maintenance state machine
//! `Open -> Preparing -> Closed -> Open`.
//!
//! The functions here are the worker's decisions. The asynchronous shell
//! around the library drives them: it hands each inbound request to the
//! matching `plan` function, performs whatever engine work the plan calls
//! for (opening a pool, running a transaction, checkpointing the write-ahead
//! log), and hands the engine's outcome back to the matching `finish` or
//! `apply` function, which computes the wire response and the worker's next
//! state. On every path that reports failure the model is left exactly as it
//! was; for an atomic batch the shell must then drop the engine transaction
//! unfinished, which rolls every statement of the batch back.

use vstd::prelude::*;
use crate::meta::MetaRow;
use crate::protocol::{
    Response,
    Statement,
    TransactionMode,
    is_coded_error,
    is_ok_exec,
    is_ok_ping,
    is_ok_reopen,
    is_plain_error,
    resp_rev,
};
use crate::text::{dec_rep, usize_to_string};
use crate::validate::{all_valid, error_text, spec_validate_statement, stmt_valid, validate_batch};

verus! {

/// Seconds a worker may sit idle before it exits; the router respawns it on
/// the next request.
pub const WORKER_IDLE_TIMEOUT_SECS: u64 = 300;

/// Capacity of the bounded command channel in front of each worker.
pub const WORKER_CHANNEL_CAPACITY: usize = 1000;

/// Where a worker stands in the maintenance cycle.
#[derive(Debug, Clone, Copy, PartialEq, Eq, Structural)]
pub enum Lifecycle {
    /// The connection pool is open; writes are served.
    Open,
    /// The write-ahead log is checkpointed and the pool closed; an operator
    /// is about to take the file.
    Preparing,
    /// No engine connection exists; the file may be replaced on disk.
    Closed,
}

/// The worker's state as the daemon tracks it: the lifecycle stage and the
/// one persisted `meta` row. The row's revision is loaded from the file at
/// open and moved in lockstep with the engine from then on; its time stamp
/// records the daemon's own last bump and no contract depends on its initial
/// value.
#[derive(Debug, Clone, Copy, PartialEq, Eq, Structural)]
pub struct WorkerModel {
    pub lifecycle: Lifecycle,
    pub row: MetaRow,
}

/// The model of a worker whose database just opened with revision `rev`.
pub fn worker_opened(rev: i64) -> (m: WorkerModel)
    ensures
        m.lifecycle is Open,
        m.row.rev == rev,
{
    WorkerModel { lifecycle: Lifecycle::Open, row: MetaRow { rev, ts: 0 } }
}

/// The model after a close: only the lifecycle moves; the persisted row is
/// untouched.
pub open spec fn spec_closed(m: WorkerModel) -> WorkerModel {
    WorkerModel { lifecycle: Lifecycle::Closed, row: m.row }
}

/// Relies on time's `OffsetDateTime::now_utc` and `unix_timestamp`: the
/// system clock read as Unix-epoch seconds. Nothing is promised of the
/// clock's value.
#[verifier::external_body]
fn now_unix_seconds() -> i64 {
    time::OffsetDateTime::now_utc().unix_timestamp()
}

fn resp_preparing() -> (r: Response)
    ensures
        is_coded_error(r, "Database is preparing for maintenance"@, "DATABASE_PREPARING"@),
{
    Response::error_with_code(
        "Database is preparing for maintenance".to_owned(),
        "DATABASE_PREPARING".to_owned(),
    )
}

fn resp_closed() -> (r: Response)
    ensures
        is_coded_error(r, "Database is closed for maintenance"@, "DATABASE_CLOSED"@),
{
    Response::error_with_code(
        "Database is closed for maintenance".to_owned(),
        "DATABASE_CLOSED".to_owned(),
    )
}

/// The wire message naming the statement at `index` as the failing one.
pub open spec fn spec_statement_message(index: int, detail: Seq<char>) -> Seq<char> {
    "Statement "@ + dec_rep(index) + ": "@ + detail
}

fn statement_message(index: usize, detail: &str) -> (r: String)
    ensures
        r@ == spec_statement_message(index as int, detail@),
{
    let mut s = "Statement ".to_owned();
    s.append(usize_to_string(index).as_str());
    s.append(": ");
    s.append(detail);
    proof {
        assert(s@ =~= spec_statement_message(index as int, detail@));
    }
    s
}

/// Answers a ping: on an open database the tracked revision, otherwise the
/// coded state error. The worker is read, never changed.
pub fn handle_ping(m: &WorkerModel, version: String, db_path: String) -> (r: Response)
    ensures
        m.lifecycle is Open ==> is_ok_ping(r, version@, db_path@, m.row.rev),
        m.lifecycle is Preparing ==> is_coded_error(
            r,
            "Database is preparing for maintenance"@,
            "DATABASE_PREPARING"@,
        ),
        m.lifecycle is Closed ==> is_coded_error(
            r,
            "Database is closed for maintenance"@,
            "DATABASE_CLOSED"@,
        ),
{
    match m.lifecycle {
        Lifecycle::Open => Response::ok_ping(version, db_path, m.row.rev),
        Lifecycle::Preparing => resp_preparing(),
        Lifecycle::Closed => resp_closed(),
    }
}

/// What the worker decides to do with a batch before the engine is touched.
#[derive(Debug, Clone, PartialEq, Eq)]
pub enum BatchPlan {
    /// Refused without engine work; the response is final.
    Reject(Response),
    /// Run the statements inside one transaction.
    RunAtomic,
    /// Run each statement separately (dangerous, kept for compatibility).
    RunSeparate,
}

/// Screens a batch: state errors first, then the empty-batch check, then
/// per-statement validation in order; only a fully valid batch reaches the
/// engine, in the transaction mode the request named.
pub fn plan_exec_batch(m: &WorkerModel, stmts: &Vec<Statement>, tx: TransactionMode) -> (r:
    BatchPlan)
    ensures
        m.lifecycle is Preparing ==> (r matches BatchPlan::Reject(e) && is_coded_error(
            e,
            "Database is preparing for maintenance"@,
            "DATABASE_PREPARING"@,
        )),
        m.lifecycle is Closed ==> (r matches BatchPlan::Reject(e) && is_coded_error(
            e,
            "Database is closed for maintenance"@,
            "DATABASE_CLOSED"@,
        )),
        m.lifecycle is Open && stmts@.len() == 0 ==> (r matches BatchPlan::Reject(e)
            && is_plain_error(e, "Empty statement batch"@)),
        m.lifecycle is Open && stmts@.len() > 0 && !all_valid(stmts@) ==> (r matches
            BatchPlan::Reject(e) && exists|i: int|
            {
                &&& 0 <= i < stmts@.len()
                &&& !stmt_valid(#[trigger] stmts@[i])
                &&& (forall|j: int| 0 <= j < i ==> stmt_valid(stmts@[j]))
                &&& (spec_validate_statement(stmts@[i]) matches Err(err) && is_plain_error(
                    e,
                    spec_statement_message(i, error_text(err)),
                ))
            }),
        m.lifecycle is Open && stmts@.len() > 0 && all_valid(stmts@) ==> r == (
        if tx is Atomic {
            BatchPlan::RunAtomic
        } else {
            BatchPlan::RunSeparate
        }),
{
    match m.lifecycle {
        Lifecycle::Preparing => BatchPlan::Reject(resp_preparing()),
        Lifecycle::Closed => BatchPlan::Reject(resp_closed()),
        Lifecycle::Open => {
            if stmts.len() == 0 {
                return BatchPlan::Reject(Response::error("Empty statement batch".to_owned()));
            }
            match validate_batch(stmts) {
                Some((i, e)) => {
                    let msg = statement_message(i, e.message().as_str());
                    BatchPlan::Reject(Response::error(msg))
                },
                _ => {
                    match tx {
                        TransactionMode::Atomic => BatchPlan::RunAtomic,
                        TransactionMode::Separate => BatchPlan::RunSeparate,
                    }
                },
            }
        },
    }
}

/// The sum of the per-statement affected-row counts.
pub open spec fn sum_rows(rows: Seq<u64>) -> int
    decreases rows.len(),
{
    if rows.len() == 0 {
        0
    } else {
        sum_rows(rows.drop_last()) + rows.last()
    }
}

/// Every prefix sum is bounded by the whole sum.
proof fn lemma_sum_rows_prefix_le(rows: Seq<u64>, i: int)
    requires
        0 <= i <= rows.len(),
    ensures
        sum_rows(rows.subrange(0, i)) <= sum_rows(rows),
    decreases rows.len() - i,
{
    if i == rows.len() {
        assert(rows.subrange(0, i) =~= rows);
    } else {
        lemma_sum_rows_prefix_le(rows, i + 1);
        assert(rows.subrange(0, i + 1).drop_last() =~= rows.subrange(0, i));
        assert(rows.subrange(0, i + 1).last() == rows[i]);
    }
}

fn sum_rows_exec(rows: &Vec<u64>) -> (t: u64)
    requires
        sum_rows(rows@) <= u64::MAX,
    ensures
        t == sum_rows(rows@),
{
    let mut acc: u64 = 0;
    let mut i: usize = 0;
    while i < rows.len()
        invariant
            0 <= i <= rows@.len(),
            acc == sum_rows(rows@.subrange(0, i as int)),
            sum_rows(rows@) <= u64::MAX,
        decreases rows@.len() - i,
    {
        proof {
            lemma_sum_rows_prefix_le(rows@, i + 1);
            assert(rows@.subrange(0, i + 1).drop_last() =~= rows@.subrange(0, i as int));
            assert(rows@.subrange(0, i + 1).last() == rows@[i as int]);
        }
        acc = acc + rows[i];
        i += 1;
    }
    proof {
        assert(rows@.subrange(0, rows@.len() as int) =~= rows@);
    }
    acc
}

/// How the engine's side of an atomic batch ended.
#[derive(Debug, Clone, PartialEq, Eq)]
pub enum AtomicOutcome {
    /// The transaction could not be begun; the engine's message.
    BeginFailed(String),
    /// The statement at `index` (zero-based) failed; the engine's message.
    StatementFailed { index: usize, message: String },
    /// The revision update inside the transaction failed.
    BumpFailed,
    /// The commit failed; the engine's message.
    CommitFailed(String),
    /// Every statement ran and the commit succeeded; the per-statement
    /// affected-row counts, in order.
    Committed { rows: Vec<u64> },
}

/// Settles an atomic batch from the engine's outcome. Every failure leaves
/// the worker exactly as it was — the caller must then drop the transaction,
/// which rolls the whole batch back — and a commit moves the revision up by
/// exactly one, stamped with the clock, with the batch's summed row count
/// reported.
pub fn finish_atomic_batch(m: &mut WorkerModel, outcome: AtomicOutcome) -> (r: Response)
    requires
        old(m).lifecycle is Open,
        old(m).row.rev < i64::MAX,
        outcome matches AtomicOutcome::Committed { rows } ==> sum_rows(rows@) <= u64::MAX,
    ensures
        !(outcome matches AtomicOutcome::Committed { .. }) ==> *final(m) == *old(m),
        outcome matches AtomicOutcome::BeginFailed(e) ==> is_coded_error(
            r,
            e@,
            "TX_BEGIN_FAILED"@,
        ),
        outcome matches AtomicOutcome::StatementFailed { index, message } ==> is_coded_error(
            r,
            spec_statement_message(index as int, message@),
            "SQL_ERROR"@,
        ),
        outcome is BumpFailed ==> is_plain_error(r, "Failed to update revision"@),
        outcome matches AtomicOutcome::CommitFailed(e) ==> is_coded_error(
            r,
            e@,
            "TX_COMMIT_FAILED"@,
        ),
        outcome matches AtomicOutcome::Committed { rows } ==> {
            &&& final(m).lifecycle is Open
            &&& final(m).row.rev == old(m).row.rev + 1
            &&& is_ok_exec(r, (old(m).row.rev + 1) as i64, sum_rows(rows@) as u64)
        },
{
    match outcome {
        AtomicOutcome::BeginFailed(e) => Response::error_with_code(
            e,
            "TX_BEGIN_FAILED".to_owned(),
        ),
        AtomicOutcome::StatementFailed { index, message } => Response::error_with_code(
            statement_message(index, message.as_str()),
            "SQL_ERROR".to_owned(),
        ),
        AtomicOutcome::BumpFailed => Response::error("Failed to update revision".to_owned()),
        AtomicOutcome::CommitFailed(e) => Response::error_with_code(
            e,
            "TX_COMMIT_FAILED".to_owned(),
        ),
        AtomicOutcome::Committed { rows } => {
            let total = sum_rows_exec(&rows);
            let ts = now_unix_seconds();
            m.row = MetaRow { rev: m.row.rev + 1, ts };
            Response::ok_exec(m.row.rev, total)
        },
    }
}

/// How the engine's side of a batch run without a transaction ended.
#[derive(Debug, Clone, PartialEq, Eq)]
pub enum SeparateOutcome {
    /// The statement at `index` (zero-based) failed; the engine's message.
    /// Earlier statements stay applied — that exposure is why this mode is
    /// dangerous.
    StatementFailed { index: usize, message: String },
    /// The statements ran but the revision update failed.
    BumpFailed,
    /// Every statement ran; the per-statement affected-row counts, in order.
    Executed { rows: Vec<u64> },
}

/// Settles a batch run without a transaction. The revision moves only when
/// every statement and the bump itself succeeded.
pub fn finish_separate_batch(m: &mut WorkerModel, outcome: SeparateOutcome) -> (r: Response)
    requires
        old(m).lifecycle is Open,
        old(m).row.rev < i64::MAX,
        outcome matches SeparateOutcome::Executed { rows } ==> sum_rows(rows@) <= u64::MAX,
    ensures
        !(outcome matches SeparateOutcome::Executed { .. }) ==> *final(m) == *old(m),
        outcome matches SeparateOutcome::StatementFailed { index, message } ==> is_coded_error(
            r,
            spec_statement_message(index as int, message@),
            "SQL_ERROR"@,
        ),
        outcome is BumpFailed ==> is_plain_error(r, "Failed to update revision"@),
        outcome matches SeparateOutcome::Executed { rows } ==> {
            &&& final(m).lifecycle is Open
            &&& final(m).row.rev == old(m).row.rev + 1
            &&& is_ok_exec(r, (old(m).row.rev + 1) as i64, sum_rows(rows@) as u64)
        },
{
    match outcome {
        SeparateOutcome::StatementFailed { index, message } => Response::error_with_code(
            statement_message(index, message.as_str()),
            "SQL_ERROR".to_owned(),
        ),
        SeparateOutcome::BumpFailed => Response::error("Failed to update revision".to_owned()),
        SeparateOutcome::Executed { rows } => {
            let total = sum_rows_exec(&rows);
            let ts = now_unix_seconds();
            m.row = MetaRow { rev: m.row.rev + 1, ts };
            Response::ok_exec(m.row.rev, total)
        },
    }
}

/// Decides whether maintenance preparation may start: only an open database
/// has a write-ahead log to checkpoint; otherwise the final refusal is
/// returned.
pub fn plan_prepare(m: &WorkerModel) -> (r: Option<Response>)
    ensures
        m.lifecycle is Open ==> r is None,
        m.lifecycle is Preparing ==> (r matches Some(e) && is_plain_error(
            e,
            "Database is already preparing"@,
        )),
        m.lifecycle is Closed ==> (r matches Some(e) && is_plain_error(
            e,
            "Database is already closed"@,
        )),
{
    match m.lifecycle {
        Lifecycle::Open => None,
        Lifecycle::Preparing => Some(Response::error("Database is already preparing".to_owned())),
        Lifecycle::Closed => Some(Response::error("Database is already closed".to_owned())),
    }
}

/// Settles maintenance preparation from the checkpoint's outcome: a failed
/// checkpoint leaves the database open and reports the engine's message; a
/// successful one moves the worker to `Preparing` (the caller has closed the
/// pool) with the revision untouched.
pub fn apply_prepare(m: &mut WorkerModel, checkpoint: Result<(), String>) -> (r: Response)
    requires
        old(m).lifecycle is Open,
    ensures
        checkpoint matches Err(e) ==> *final(m) == *old(m) && is_plain_error(
            r,
            "Failed to checkpoint WAL: "@ + e@,
        ),
        checkpoint is Ok ==> {
            &&& final(m).lifecycle is Preparing
            &&& final(m).row == old(m).row
            &&& r == (Response::Success {
                data: crate::protocol::ResponseData::PrepareForMaintenance { checkpointed: true },
            })
        },
{
    match checkpoint {
        Err(e) => Response::error(
            crate::text::prefixed_message("Failed to checkpoint WAL: ", e.as_str()),
        ),
        _ => {
            m.lifecycle = Lifecycle::Preparing;
            Response::ok_prepare_maintenance()
        },
    }
}

/// What the shell must do to the engine when a close is handled.
#[derive(Debug, Clone, Copy, PartialEq, Eq, Structural)]
pub enum CloseAction {
    /// Checkpoint best-effort, then close the pool.
    CheckpointAndClosePool,
    /// Nothing: no pool is open.
    NoEngineWork,
}

/// Closes the database: from `Open` the pool is checkpointed best-effort and
/// closed, from `Preparing` the pool is already gone; either way the worker
/// ends `Closed` with the revision untouched, and the file may then be
/// replaced on disk. A second close is refused.
pub fn handle_close_database(m: &mut WorkerModel) -> (r: (Response, CloseAction))
    ensures
        old(m).lifecycle is Open ==> *final(m) == spec_closed(*old(m)) && r.0 == (
        Response::Success {
            data: crate::protocol::ResponseData::CloseDatabase { closed: true },
        }) && r.1 is CheckpointAndClosePool,
        old(m).lifecycle is Preparing ==> *final(m) == spec_closed(*old(m)) && r.0 == (
        Response::Success {
            data: crate::protocol::ResponseData::CloseDatabase { closed: true },
        }) && r.1 is NoEngineWork,
        old(m).lifecycle is Closed ==> *final(m) == *old(m) && is_plain_error(
            r.0,
            "Database is already closed"@,
        ) && r.1 is NoEngineWork,
{
    match m.lifecycle {
        Lifecycle::Open => {
            m.lifecycle = Lifecycle::Closed;
            (Response::ok_close_database(), CloseAction::CheckpointAndClosePool)
        },
        Lifecycle::Preparing => {
            m.lifecycle = Lifecycle::Closed;
            (Response::ok_close_database(), CloseAction::NoEngineWork)
        },
        Lifecycle::Closed => {
            (
                Response::error("Database is already closed".to_owned()),
                CloseAction::NoEngineWork,
            )
        },
    }
}

/// Decides whether a reopen may start: an open database is refused; from
/// `Preparing` or `Closed` the engine must open the pool, run the
/// migrations, and read the persisted revision back.
pub fn plan_reopen(m: &WorkerModel) -> (r: Option<Response>)
    ensures
        m.lifecycle is Open ==> (r matches Some(e) && is_plain_error(
            e,
            "Database is already open"@,
        )),
        !(m.lifecycle is Open) ==> r is None,
{
    match m.lifecycle {
        Lifecycle::Open => Some(Response::error("Database is already open".to_owned())),
        _ => None,
    }
}

/// How the engine's side of a reopen ended.
#[derive(Debug, Clone, PartialEq, Eq)]
pub enum ReopenOutcome {
    /// The pool could not be opened; the engine's message. The worker stays
    /// as it was.
    OpenFailed(String),
    /// The pool opened but the revision could not be read; the engine's
    /// message. The worker is open again with its tracked revision kept.
    RevReadFailed(String),
    /// The pool opened and the persisted revision was read back.
    Opened { rev: i64 },
}

/// Settles a reopen from the engine's outcome.
pub fn apply_reopen(m: &mut WorkerModel, outcome: ReopenOutcome) -> (r: Response)
    requires
        !(old(m).lifecycle is Open),
    ensures
        outcome matches ReopenOutcome::OpenFailed(e) ==> *final(m) == *old(m) && is_plain_error(
            r,
            "Failed to open database: "@ + e@,
        ),
        outcome matches ReopenOutcome::RevReadFailed(e) ==> {
            &&& final(m).lifecycle is Open
            &&& final(m).row == old(m).row
            &&& is_plain_error(r, "Database opened but failed to get revision: "@ + e@)
        },
        outcome matches ReopenOutcome::Opened { rev } ==> {
            &&& final(m).lifecycle is Open
            &&& final(m).row.rev == rev
            &&& is_ok_reopen(r, rev)
        },
{
    match outcome {
        ReopenOutcome::OpenFailed(e) => Response::error(
            crate::text::prefixed_message("Failed to open database: ", e.as_str()),
        ),
        ReopenOutcome::RevReadFailed(e) => {
            m.lifecycle = Lifecycle::Open;
            Response::error(
                crate::text::prefixed_message(
                    "Database opened but failed to get revision: ",
                    e.as_str(),
                ),
            )
        },
        ReopenOutcome::Opened { rev } => {
            m.lifecycle = Lifecycle::Open;
            m.row = MetaRow { rev, ts: m.row.ts };
            Response::ok_reopen_database(rev)
        },
    }
}

/// The worker's reply to a `Shutdown` forwarded to it: a bare acknowledgment.
pub fn handle_shutdown() -> (r: Response)
    ensures
        r == (Response::Success { data: crate::protocol::ResponseData::Shutdown }),
{
    Response::ok_shutdown()
}

/// Decides the idle exit: the worker leaves only once its queue is empty and
/// the idle timeout has fully elapsed.
pub fn idle_should_exit(idle_secs: u64, queue_empty: bool) -> (r: bool)
    ensures
        r == (queue_empty && idle_secs >= WORKER_IDLE_TIMEOUT_SECS),
{
    queue_empty && idle_secs >= WORKER_IDLE_TIMEOUT_SECS
}

/// Law: a successful write batch moves the revision up by exactly one — the
/// committed model's revision is the pre-batch revision plus one, which is
/// also the revision the response reports.
pub proof fn lemma_batch_bumps_rev_by_one(pre: WorkerModel, r: Response, rows_affected: u64)
    requires
        pre.row.rev < i64::MAX,
        is_ok_exec(r, (pre.row.rev + 1) as i64, rows_affected),
    ensures
        resp_rev(r) == Some((pre.row.rev + 1) as i64),
{
}

/// Law: ping is pure — it never changes the worker, and two pings between
/// which no write batch succeeds (so the tracked revision is the same)
/// report the same revision.
pub proof fn lemma_ping_pure(
    m1: WorkerModel,
    m2: WorkerModel,
    version: Seq<char>,
    db_path: Seq<char>,
    r1: Response,
    r2: Response,
)
    requires
        m1.lifecycle is Open,
        m2.lifecycle is Open,
        m1.row.rev == m2.row.rev,
        is_ok_ping(r1, version, db_path, m1.row.rev),
        is_ok_ping(r2, version, db_path, m2.row.rev),
    ensures
        resp_rev(r1) == resp_rev(r2),
        resp_rev(r1) == Some(m1.row.rev),
{
}

/// Law: a reopen after a close preserves the revision. Closing never touches
/// the persisted row, and reopening an untouched file reads that same
/// revision back, so the reopen response reports the revision the worker
/// held before the close.
pub proof fn lemma_reopen_preserves_rev(m: WorkerModel, r: Response)
    requires
        is_ok_reopen(r, spec_closed(m).row.rev),
    ensures
        resp_rev(r) == Some(m.row.rev),
{
}

} // verus!
