//! The decisions of a SQLite connection, on the values that SQLite's calls
//! take and give back.

use vstd::prelude::*;
use vstd::string::StringSliceAdditionalSpecFns;
use crate::result::{
    DatabaseErrorInformation,
    ErrorInformation, ConnectionError, ConnectionErrorKind, ConnectionResult, DatabaseError, DatabaseErrorKind, Error,
    ErrorKind, NulError, QueryResult,
};

verus! {

/// The status code by which SQLite reports success.
pub const SQLITE_OK: i32 = 0;

/// The status code by which SQLite reports that a statement has a row ready.
pub const SQLITE_ROW: i32 = 100;

/// The status code by which SQLite reports that a statement has run to its end.
pub const SQLITE_DONE: i32 = 101;

/// SQLite's extended result code for a violated `PRIMARY KEY` constraint.
pub const SQLITE_CONSTRAINT_PRIMARYKEY: i32 = 1555;

/// SQLite's extended result code for a violated `UNIQUE` constraint.
pub const SQLITE_CONSTRAINT_UNIQUE: i32 = 2067;

/// Whether an extended result code reports a violated unique or primary-key
/// constraint.
pub open spec fn is_unique_violation_code(extended_code: i32) -> bool {
    extended_code == SQLITE_CONSTRAINT_UNIQUE || extended_code == SQLITE_CONSTRAINT_PRIMARYKEY
}

/// The database error SQLite reported, from its extended result code and its
/// message: a unique violation, with the message and nothing more known, for
/// a unique or primary-key constraint; else the plain message.
pub open spec fn is_database_error_of(k: DatabaseErrorKind, extended_code: i32, message: Seq<char>) -> bool {
    if is_unique_violation_code(extended_code) {
        k matches DatabaseErrorKind::UniqueViolation(i) && i.message@ == message && i.details is None
            && i.hint is None && i.table_name is None && i.column_name is None
            && i.constraint_name is None
    } else {
        k matches DatabaseErrorKind::Msg(m) && m@ == message
    }
}

/// The kind of the error SQLite reported, from its extended result code and
/// its message: a unique violation for a unique or primary-key constraint,
/// else a plain message.
pub fn database_error_kind(extended_code: i32, message: String) -> (r: DatabaseErrorKind)
    ensures
        is_database_error_of(r, extended_code, message@),
        (r is UniqueViolation) <==> (extended_code == 2067 || extended_code == 1555),
        r.message_view() == message@,
{
    if extended_code == SQLITE_CONSTRAINT_UNIQUE || extended_code == SQLITE_CONSTRAINT_PRIMARYKEY {
        DatabaseErrorKind::UniqueViolation(ErrorInformation {
            message,
            details: None,
            hint: None,
            table_name: None,
            column_name: None,
            constraint_name: None,
        })
    } else {
        DatabaseErrorKind::Msg(message)
    }
}

/// What stepping through a statement gave.
#[derive(Debug, Clone, Copy, PartialEq, Eq, Structural)]
pub enum StepOutcome {
    /// A row is ready to be read.
    Row,
    /// The statement has run to its end.
    Done,
}

/// The bytes of a C string made of `s`: the UTF-8 bytes of `s` and a NUL at
/// the end; or, where `s` holds a NUL byte, the position of the first one,
/// with the bytes of `s`.
pub fn c_string_from_str(s: &str) -> (r: Result<Vec<u8>, NulError>)
    ensures
        match r {
            Ok(c) => (forall|j: int| 0 <= j < s.spec_bytes().len() ==> s.spec_bytes()[j] != 0)
                && c@ == s.spec_bytes().push(0u8),
            Err(e) => 0 <= e.0 < s.spec_bytes().len()
                && s.spec_bytes()[e.0 as int] == 0
                && (forall|j: int| 0 <= j < e.0 ==> s.spec_bytes()[j] != 0)
                && e.1@ == s.spec_bytes(),
        },
{
    let b = s.as_bytes();
    let mut out: Vec<u8> = Vec::new();
    let mut i: usize = 0;
    while i < b.len()
        invariant
            b@ == s.spec_bytes(),
            i <= b@.len(),
            out@ == b@.subrange(0, i as int),
            forall|j: int| 0 <= j < i ==> b@[j] != 0,
        decreases b@.len() - i,
    {
        if b[i] == 0 {
            let mut all: Vec<u8> = out;
            let mut k: usize = i;
            while k < b.len()
                invariant
                    b@ == s.spec_bytes(),
                    i <= k <= b@.len(),
                    all@ == b@.subrange(0, k as int),
                decreases b@.len() - k,
            {
                all.push(b[k]);
                assert(all@ =~= b@.subrange(0, k + 1));
                k = k + 1;
            }
            assert(all@ =~= b@);
            return Err(NulError(i, all));
        }
        out.push(b[i]);
        assert(out@ =~= b@.subrange(0, i + 1));
        i = i + 1;
    }
    assert(out@ =~= b@);
    out.push(0u8);
    Ok(out)
}

/// The outcome of opening a connection, from the status SQLite gave back and
/// SQLite's message for that status: success exactly when the status is
/// `SQLITE_OK`, else a bad connection with that message.
pub fn open_status_result(status: i32, message: &str) -> (r: ConnectionResult<()>)
    ensures
        status == SQLITE_OK ==> r is Ok,
        status != SQLITE_OK ==> (r matches Err(ConnectionError(ConnectionErrorKind::BadConnection(m)))
            && m@ == message@),
{
    if status == SQLITE_OK {
        Ok(())
    } else {
        Err(ConnectionError::from(ConnectionErrorKind::BadConnection(message.to_owned())))
    }
}

/// The outcome of running SQL text, from the error message SQLite handed
/// back, if any, and its extended result code: the database error that code
/// and message report, or success.
pub fn exec_result(extended_code: i32, error_message: Option<String>) -> (r: QueryResult<()>)
    ensures
        error_message is None ==> r is Ok,
        error_message matches Some(m) ==> (r matches Err(Error(ErrorKind::DatabaseError(k), _))
            && is_database_error_of(k, extended_code, m@)),
{
    match error_message {
        Some(msg) => Err(Error::from(DatabaseError(database_error_kind(extended_code, msg)))),
        None => Ok(()),
    }
}

/// The outcome of executing SQL text: the error of running it, or else the
/// number of rows the last statement changed.
pub fn execute_result(batch: QueryResult<()>, rows_changed: usize) -> (r: QueryResult<usize>)
    ensures
        batch matches Err(e) ==> r == Err::<usize, Error>(e),
        batch is Ok ==> r == Ok::<usize, Error>(rows_changed),
{
    match batch {
        Err(e) => Err(e),
        Ok(()) => Ok(rows_changed),
    }
}

/// The outcome of preparing a statement, from the status SQLite gave back,
/// its extended result code and SQLite's message: success exactly when the
/// status is `SQLITE_OK`, else the database error that code and message
/// report.
pub fn prepare_status_result(status: i32, extended_code: i32, message: &str) -> (r: QueryResult<()>)
    ensures
        status == SQLITE_OK ==> r is Ok,
        status != SQLITE_OK ==> (r matches Err(Error(ErrorKind::DatabaseError(k), _))
            && is_database_error_of(k, extended_code, message@)),
{
    if status == SQLITE_OK {
        Ok(())
    } else {
        Err(Error::from(DatabaseError(database_error_kind(extended_code, message.to_owned()))))
    }
}

/// The outcome of stepping through a statement, from the status SQLite gave
/// back, its extended result code and SQLite's message: a row for
/// `SQLITE_ROW`, the end for `SQLITE_DONE`, else the database error that
/// code and message report.
pub fn step_status_result(status: i32, extended_code: i32, message: &str) -> (r: QueryResult<StepOutcome>)
    ensures
        status == SQLITE_ROW ==> r == Ok::<StepOutcome, Error>(StepOutcome::Row),
        status == SQLITE_DONE ==> r == Ok::<StepOutcome, Error>(StepOutcome::Done),
        status != SQLITE_ROW && status != SQLITE_DONE ==> (r matches Err(Error(ErrorKind::DatabaseError(k), _))
            && is_database_error_of(k, extended_code, message@)),
{
    if status == SQLITE_ROW {
        Ok(StepOutcome::Row)
    } else if status == SQLITE_DONE {
        Ok(StepOutcome::Done)
    } else {
        Err(Error::from(DatabaseError(database_error_kind(extended_code, message.to_owned()))))
    }
}

} // verus!

verus! {

/// Only SQLite's extended codes 2067 (a `UNIQUE` constraint) and 1555 (a
/// `PRIMARY KEY` constraint) report a unique violation, which holds SQLite's
/// message and names nothing; every other code, such as 787 (a `FOREIGN KEY`
/// constraint) or 19 (a constraint of no known kind), reports the plain
/// message.
pub proof fn law_database_error_kind_classification(k: DatabaseErrorKind, extended_code: i32, message: Seq<char>)
    requires
        is_database_error_of(k, extended_code, message),
    ensures
        (k is UniqueViolation) <==> (extended_code == 2067 || extended_code == 1555),
        k.message_view() == message,
        k is UniqueViolation ==> (k.table_name_view() is None && k.column_name_view() is None
            && k.constraint_name_view() is None && k.details_view() is None && k.hint_view() is None),
        !(extended_code == 2067 || extended_code == 1555) ==> (k matches DatabaseErrorKind::Msg(m) && m@ == message),
{
}

} // verus!
