//! What an attempt to close a connection leaves behind.

use vstd::prelude::*;

verus! {

/// What SQLite may answer when `conn` is closed.
pub open spec fn close_may_give(
    conn: rusqlite::Connection,
    closed: Result<(), (rusqlite::Connection, rusqlite::Error)>,
) -> bool {
    call_ensures(rusqlite::Connection::close, (conn,), closed)
}

/// What the caller is told of an attempt to close.
pub open spec fn report_of(
    closed: Result<(), (rusqlite::Connection, rusqlite::Error)>,
) -> Result<(), rusqlite::Error> {
    match closed {
        Ok(()) => Ok(()),
        Err((_, e)) => Err(e),
    }
}

/// The connection that an attempt to close leaves open: the one that SQLite handed back, if it
/// refused.
pub open spec fn kept_after(
    closed: Result<(), (rusqlite::Connection, rusqlite::Error)>,
) -> Option<rusqlite::Connection> {
    match closed {
        Ok(()) => None,
        Err((conn, _)) => Some(conn),
    }
}

/// Parts what the caller is told from the connection that is kept for a later attempt.
pub fn settle(closed: Result<(), (rusqlite::Connection, rusqlite::Error)>) -> (settled: (
    Result<(), rusqlite::Error>,
    Option<rusqlite::Connection>,
))
    ensures
        settled.0 == report_of(closed),
        settled.1 == kept_after(closed),
    opens_invariants none
{
    match closed {
        Ok(()) => (Ok(()), None),
        Err((conn, e)) => (Err(e), Some(conn)),
    }
}

} // verus!
