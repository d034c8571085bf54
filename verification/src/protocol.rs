//! The request/response schema of the daemon's wire protocol.
//!
//! On the wire both sides exchange JSON objects; the shell around this
//! library turns those bytes into the plain values below and back. A
//! statement parameter is one JSON value, modelled by [`ParamValue`]: a
//! floating-point number is carried as its bit pattern and never interpreted
//! here, and an array- or object-valued parameter is carried as its compact
//! JSON serialization.

use vstd::prelude::*;

verus! {

/// One JSON parameter of a statement, as the daemon's logic reads it.
#[derive(Debug, Clone, PartialEq, Eq)]
pub enum ParamValue {
    /// JSON `null`.
    Null,
    /// JSON `true` or `false`.
    Bool(bool),
    /// A JSON number representable as a signed 64-bit integer.
    Int(i64),
    /// A JSON number representable only as an unsigned 64-bit integer.
    UInt(u64),
    /// A JSON floating-point number, carried as its IEEE-754 bit pattern.
    Real(u64),
    /// A JSON string.
    Text(String),
    /// A JSON array or object, carried as its compact serialization.
    Json(String),
}

/// A single SQL statement with its parameters.
#[derive(Debug, Clone, PartialEq, Eq)]
pub struct Statement {
    pub sql: String,
    pub params: Vec<ParamValue>,
}

/// How a batch of statements is executed.
#[derive(Debug, Clone, Copy, PartialEq, Eq, Structural)]
pub enum TransactionMode {
    /// All statements in one transaction (recommended).
    Atomic,
    /// Each statement separate (dangerous!).
    Separate,
}

/// The transaction mode a batch gets when the request names none.
pub fn default_tx_mode() -> (r: TransactionMode)
    ensures
        r == TransactionMode::Atomic,
{
    TransactionMode::Atomic
}

/// Request from client to daemon.
#[derive(Debug, Clone, PartialEq, Eq)]
pub enum Request {
    /// Health check.
    Ping { db: String },
    /// Execute a batch of write statements.
    ExecBatch { db: String, stmts: Vec<Statement>, tx: TransactionMode },
    /// Prepare database for maintenance (checkpoint the write-ahead log).
    PrepareForMaintenance { db: String },
    /// Close database connection (for file replacement).
    CloseDatabase { db: String },
    /// Reopen database connection (after file replacement).
    ReopenDatabase { db: String },
    /// Graceful shutdown.
    Shutdown,
}

/// Response from daemon to client.
#[derive(Debug, Clone, PartialEq, Eq)]
pub enum Response {
    /// Success response.
    Success { data: ResponseData },
    /// Error response.
    Error { message: String, code: Option<String> },
}

/// The payload of a success response, one variant per request type.
#[derive(Debug, Clone, PartialEq, Eq)]
pub enum ResponseData {
    Ping { version: String, db_path: String, rev: i64 },
    ExecBatch { rev: i64, rows_affected: u64 },
    PrepareForMaintenance { checkpointed: bool },
    CloseDatabase { closed: bool },
    ReopenDatabase { reopened: bool, rev: i64 },
    Shutdown,
}

/// True when `r` is an error response whose message reads `message`.
pub open spec fn is_plain_error(r: Response, message: Seq<char>) -> bool {
    &&& r matches Response::Error { message: m, code: c }
    &&& m@ == message
    &&& c is None
}

/// True when `r` is an error response carrying the code `code`.
pub open spec fn is_coded_error(r: Response, message: Seq<char>, code: Seq<char>) -> bool {
    &&& r matches Response::Error { message: m, code: c }
    &&& m@ == message
    &&& c matches Some(cs) && cs@ == code
}

/// True when `r` is the success response of an executed batch.
pub open spec fn is_ok_exec(r: Response, rev: i64, rows_affected: u64) -> bool {
    r == (Response::Success { data: ResponseData::ExecBatch { rev, rows_affected } })
}

/// True when `r` is the success response of a ping.
pub open spec fn is_ok_ping(r: Response, version: Seq<char>, db_path: Seq<char>, rev: i64) -> bool {
    &&& r matches Response::Success { data: ResponseData::Ping { version: v, db_path: p, rev: rv } }
    &&& v@ == version
    &&& p@ == db_path
    &&& rv == rev
}

/// True when `r` is the success response of a reopened database.
pub open spec fn is_ok_reopen(r: Response, rev: i64) -> bool {
    r == (Response::Success { data: ResponseData::ReopenDatabase { reopened: true, rev } })
}

impl Response {
    pub fn ok_ping(version: String, db_path: String, rev: i64) -> (r: Self)
        ensures
            r == (Response::Success { data: ResponseData::Ping { version, db_path, rev } }),
    {
        Response::Success { data: ResponseData::Ping { version, db_path, rev } }
    }

    pub fn ok_exec(rev: i64, rows_affected: u64) -> (r: Self)
        ensures
            is_ok_exec(r, rev, rows_affected),
    {
        Response::Success { data: ResponseData::ExecBatch { rev, rows_affected } }
    }

    pub fn ok_shutdown() -> (r: Self)
        ensures
            r == (Response::Success { data: ResponseData::Shutdown }),
    {
        Response::Success { data: ResponseData::Shutdown }
    }

    pub fn ok_prepare_maintenance() -> (r: Self)
        ensures
            r == (Response::Success { data: ResponseData::PrepareForMaintenance { checkpointed: true } }),
    {
        Response::Success { data: ResponseData::PrepareForMaintenance { checkpointed: true } }
    }

    pub fn ok_close_database() -> (r: Self)
        ensures
            r == (Response::Success { data: ResponseData::CloseDatabase { closed: true } }),
    {
        Response::Success { data: ResponseData::CloseDatabase { closed: true } }
    }

    pub fn ok_reopen_database(rev: i64) -> (r: Self)
        ensures
            is_ok_reopen(r, rev),
    {
        Response::Success { data: ResponseData::ReopenDatabase { reopened: true, rev } }
    }

    pub fn error(message: String) -> (r: Self)
        ensures
            is_plain_error(r, message@),
    {
        Response::Error { message, code: None }
    }

    pub fn error_with_code(message: String, code: String) -> (r: Self)
        ensures
            is_coded_error(r, message@, code@),
    {
        Response::Error { message, code: Some(code) }
    }
}

/// The revision a response reports, where it reports one.
pub open spec fn resp_rev(r: Response) -> Option<i64> {
    match r {
        Response::Success { data: ResponseData::Ping { rev, .. } } => Some(rev),
        Response::Success { data: ResponseData::ExecBatch { rev, .. } } => Some(rev),
        Response::Success { data: ResponseData::ReopenDatabase { rev, .. } } => Some(rev),
        _ => None,
    }
}

/// The database name a request targets, or `None` for `Shutdown`.
pub open spec fn spec_db_name(req: Request) -> Option<Seq<char>> {
    match req {
        Request::Ping { db } => Some(db@),
        Request::ExecBatch { db, .. } => Some(db@),
        Request::PrepareForMaintenance { db } => Some(db@),
        Request::CloseDatabase { db } => Some(db@),
        Request::ReopenDatabase { db } => Some(db@),
        Request::Shutdown => None,
    }
}

/// Extracts the database name a request targets; `Shutdown` carries none.
pub fn extract_db_name(req: &Request) -> (r: Option<String>)
    ensures
        match spec_db_name(*req) {
            Some(name) => r matches Some(s) && s@ == name,
            None => r is None,
        },
{
    match req {
        Request::Ping { db } => Some(db.clone()),
        Request::ExecBatch { db, .. } => Some(db.clone()),
        Request::PrepareForMaintenance { db } => Some(db.clone()),
        Request::CloseDatabase { db } => Some(db.clone()),
        Request::ReopenDatabase { db } => Some(db.clone()),
        Request::Shutdown => None,
    }
}

/// True exactly for `Shutdown`: the connection closes after that reply.
pub fn connection_should_close(req: &Request) -> (r: bool)
    ensures
        r == (req is Shutdown),
{
    match req {
        Request::Shutdown => true,
        _ => false,
    }
}

} // verus!
