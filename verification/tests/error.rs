use tokio_rusqlite::call::flatten;
use tokio_rusqlite::threaded::{report_opening, Handle};
use tokio_rusqlite::{Cause, Connection, Error, BUG_TEXT};

fn close_error() -> Error {
    let sqlite = rusqlite::Connection::open_in_memory().expect("open");
    let (conn, _server) = Connection::from_connection(sqlite);
    Error::Close((conn, rusqlite::Error::QueryReturnedNoRows))
}

#[test]
fn errors_read_as_their_variants() {
    let closed: Error = Error::ConnectionClosed;
    assert_eq!(closed.to_text(), "ConnectionClosed");
    assert_eq!(close_error().to_text(), "Close((Connection, \"Query returned no rows\"))");
    let own: Error<String> = Error::Error("boom".to_string());
    assert_eq!(own.to_text(), "Error(\"boom\")");
    let sqlite: Error = Error::Error(rusqlite::Error::InvalidQuery);
    assert_eq!(sqlite.to_text(), "Error(\"Query is not read-only\")");
}

#[test]
fn source_is_the_error_underneath() {
    let closed: Error = Error::ConnectionClosed;
    assert!(closed.source().is_none());
    assert!(matches!(
        close_error().source(),
        Some(Cause::Sqlite(rusqlite::Error::QueryReturnedNoRows))
    ));
    let own: Error<u8> = Error::Error(7);
    assert!(matches!(own.source(), Some(Cause::Application(7))));
}

#[test]
fn sqlite_errors_convert() {
    let error = Error::from(rusqlite::Error::QueryReturnedNoRows);
    assert!(matches!(error, Error::Error(rusqlite::Error::QueryReturnedNoRows)));
}

#[test]
fn flatten_brings_the_errors_together() {
    let fine: Result<u8, Error<u16>> = flatten(Ok(Ok(1)));
    assert_eq!(fine.ok(), Some(1));
    let own: Result<u8, Error<u16>> = flatten(Ok(Err(2)));
    assert!(matches!(own, Err(Error::Error(2))));
    let gone: Result<u8, Error<u16>> = flatten(Err(Error::ConnectionClosed));
    assert!(matches!(gone, Err(Error::ConnectionClosed)));
}

#[test]
fn opening_is_parted_into_report_and_connection() {
    let (report, conn) = report_opening(rusqlite::Connection::open_in_memory());
    assert_eq!(report, Ok(()));
    assert!(conn.is_some());
    let (report, conn) = report_opening(Err(rusqlite::Error::InvalidQuery));
    assert_eq!(report, Err(rusqlite::Error::InvalidQuery));
    assert!(conn.is_none());
}

#[test]
fn answers_to_a_close_are_read() {
    assert_eq!(Handle::finish_close(None), Ok(()));
    assert_eq!(Handle::finish_close(Some(Err(futures_channel::oneshot::Canceled))), Ok(()));
    assert_eq!(Handle::finish_close(Some(Ok(Ok(())))), Ok(()));
    let e = rusqlite::Error::InvalidQuery;
    assert_eq!(Handle::finish_close(Some(Ok(Err(e)))), Err(rusqlite::Error::InvalidQuery));
}

#[test]
fn bug_text_asks_for_a_report() {
    assert_eq!(BUG_TEXT, "bug in tokio-rusqlite, please report");
}
