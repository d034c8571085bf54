//! A write-serializing daemon core for embedded relational databases.
//!
//! Many client processes on one host share a directory of database files; this
//! library holds the verified core of the daemon that owns all writes to them:
//! the length-framed wire protocol, the request/response schema, statement
//! validation, the per-database worker lifecycle and maintenance state
//! machine, and the router table that maps database names to live workers.
//! The asynchronous shell around it (sockets, the SQL engine, channels) drives
//! these functions and performs the actions they decide on.

pub mod binding;
pub mod framing;
pub mod meta;
pub mod protocol;
pub mod router;
pub mod text;
pub mod validate;
pub mod worker;

