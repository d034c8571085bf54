//! Statement validation: the size limits and the forbidden-pragma check a
//! batch must pass before anything reaches the SQL engine.

use vstd::prelude::*;
use crate::protocol::Statement;

verus! {

/// Upper bound, in bytes, on one statement's SQL text.
pub const MAX_SQL_BYTES: usize = 100_000;

/// Upper bound on the number of parameters of one statement.
pub const MAX_PARAMS: usize = 999;

/// The UTF-8 bytes of a string value.
pub open spec fn bytes_of(s: Seq<char>) -> Seq<u8> {
    vstd::utf8::encode_utf8(s)
}

/// ASCII case folding: a lower-case letter to its upper-case form, every
/// other byte unchanged.
pub open spec fn ascii_upper(b: u8) -> u8 {
    if 97 <= b <= 122 {
        (b - 32) as u8
    } else {
        b
    }
}

/// True when, folded to ASCII upper case, `hay` reads `needle` at offset `i`.
pub open spec fn ci_match_at(hay: Seq<u8>, needle: Seq<u8>, i: int) -> bool {
    forall|j: int| 0 <= j < needle.len() ==> ascii_upper(hay[i + j]) == needle[j]
}

/// True when `hay`, folded to ASCII upper case, contains `needle`.
pub open spec fn ci_contains(hay: Seq<u8>, needle: Seq<u8>) -> bool {
    exists|i: int| 0 <= i && i + needle.len() <= hay.len() && ci_match_at(hay, needle, i)
}

/// The byte sequence whose rejection the validator owes: the ASCII text
/// `PRAGMA WRITABLE_SCHEMA`.
pub open spec fn forbidden_pragma() -> Seq<u8> {
    bytes_of("PRAGMA WRITABLE_SCHEMA"@)
}

fn forbidden_pragma_vec() -> (v: Vec<u8>)
    ensures
        v@ == forbidden_pragma(),
{
    let s = "PRAGMA WRITABLE_SCHEMA";
    s.as_bytes_vec()
}

fn ascii_upper_exec(b: u8) -> (r: u8)
    ensures
        r == ascii_upper(b),
{
    if 97 <= b && b <= 122 {
        b - 32
    } else {
        b
    }
}

fn ci_contains_exec(hay: &Vec<u8>, needle: &Vec<u8>) -> (r: bool)
    ensures
        r == ci_contains(hay@, needle@),
{
    let hlen = hay.len();
    let nlen = needle.len();
    if nlen > hlen {
        return false;
    }
    if nlen == 0 {
        proof {
            assert(ci_match_at(hay@, needle@, 0));
            assert(ci_contains(hay@, needle@));
        }
        return true;
    }
    let last = hlen - nlen;
    let mut i: usize = 0;
    while i <= last
        invariant
            hlen == hay@.len(),
            nlen == needle@.len(),
            0 < nlen <= hlen,
            last == hlen - nlen,
            0 <= i <= last + 1,
            forall|k: int| 0 <= k < i ==> !ci_match_at(hay@, needle@, k),
        decreases last + 1 - i,
    {
        let mut j: usize = 0;
        let mut matched = true;
        while matched && j < nlen
            invariant
                hlen == hay@.len(),
                nlen == needle@.len(),
                0 <= j <= nlen,
                i <= last,
                last == hlen - nlen,
                nlen <= hlen,
                matched ==> forall|k: int|
                    0 <= k < j ==> ascii_upper(hay@[i + k]) == needle@[k],
                !matched ==> !ci_match_at(hay@, needle@, i as int),
            decreases nlen - j + (if matched { 1int } else { 0int }),
        {
            if ascii_upper_exec(hay[i + j]) == needle[j] {
                j += 1;
            } else {
                matched = false;
            }
        }
        if matched {
            proof {
                assert(ci_match_at(hay@, needle@, i as int));
                assert(ci_contains(hay@, needle@));
            }
            return true;
        }
        i += 1;
    }
    false
}

/// True when the statement's SQL contains, in any ASCII letter case, the
/// forbidden pragma text.
pub fn contains_forbidden_pragma(sql: &String) -> (r: bool)
    ensures
        r == ci_contains(bytes_of(sql@), forbidden_pragma()),
{
    let hay = sql.as_str().as_bytes_vec();
    let needle = forbidden_pragma_vec();
    ci_contains_exec(&hay, &needle)
}

/// Why a statement was refused.
#[derive(Debug, Clone, Copy, PartialEq, Eq, Structural)]
pub enum StatementError {
    /// The SQL text exceeds [`MAX_SQL_BYTES`].
    SqlTooLong,
    /// The statement has more than [`MAX_PARAMS`] parameters.
    TooManyParams,
    /// The SQL contains the forbidden pragma.
    ForbiddenPragma,
}

/// The diagnostic text reported on the wire for each refusal.
pub open spec fn error_text(e: StatementError) -> Seq<char> {
    match e {
        StatementError::SqlTooLong => "SQL statement too long (max 100KB)"@,
        StatementError::TooManyParams => "Too many parameters (SQLite limit is 999)"@,
        StatementError::ForbiddenPragma => "Dangerous pragma rejected"@,
    }
}

impl StatementError {
    /// The diagnostic text reported on the wire for this refusal.
    pub fn message(&self) -> (r: String)
        ensures
            r@ == error_text(*self),
    {
        match self {
            StatementError::SqlTooLong => "SQL statement too long (max 100KB)".to_owned(),
            StatementError::TooManyParams => "Too many parameters (SQLite limit is 999)".to_owned(),
            StatementError::ForbiddenPragma => "Dangerous pragma rejected".to_owned(),
        }
    }
}

/// What validation says of one statement: the size limits are checked first,
/// then the parameter count, then the pragma text.
pub open spec fn spec_validate_statement(s: Statement) -> Result<(), StatementError> {
    if bytes_of(s.sql@).len() > MAX_SQL_BYTES as int {
        Err(StatementError::SqlTooLong)
    } else if s.params@.len() > MAX_PARAMS as int {
        Err(StatementError::TooManyParams)
    } else if ci_contains(bytes_of(s.sql@), forbidden_pragma()) {
        Err(StatementError::ForbiddenPragma)
    } else {
        Ok(())
    }
}

/// True when the statement passes every check.
pub open spec fn stmt_valid(s: Statement) -> bool {
    spec_validate_statement(s) is Ok
}

/// Checks one statement against the daemon's limits.
pub fn validate_statement(stmt: &Statement) -> (r: Result<(), StatementError>)
    ensures
        r == spec_validate_statement(*stmt),
{
    if stmt.sql.as_str().as_bytes().len() > MAX_SQL_BYTES {
        Err(StatementError::SqlTooLong)
    } else if stmt.params.len() > MAX_PARAMS {
        Err(StatementError::TooManyParams)
    } else if contains_forbidden_pragma(&stmt.sql) {
        Err(StatementError::ForbiddenPragma)
    } else {
        Ok(())
    }
}

/// True when every statement of the batch passes validation.
pub open spec fn all_valid(stmts: Seq<Statement>) -> bool {
    forall|i: int| 0 <= i < stmts.len() ==> stmt_valid(stmts[i])
}

/// Checks a batch in order and reports the first failing statement.
pub fn validate_batch(stmts: &Vec<Statement>) -> (r: Option<(usize, StatementError)>)
    ensures
        r is None <==> all_valid(stmts@),
        r matches Some((i, e)) ==> {
            &&& i < stmts@.len()
            &&& spec_validate_statement(stmts@[i as int]) == Err::<(), StatementError>(e)
            &&& forall|j: int| 0 <= j < i ==> stmt_valid(stmts@[j])
        },
{
    let mut i: usize = 0;
    while i < stmts.len()
        invariant
            0 <= i <= stmts@.len(),
            forall|j: int| 0 <= j < i ==> stmt_valid(stmts@[j]),
        decreases stmts@.len() - i,
    {
        match validate_statement(&stmts[i]) {
            Err(e) => {
                return Some((i, e));
            },
            _ => {},
        }
        i += 1;
    }
    None
}

} // verus!
