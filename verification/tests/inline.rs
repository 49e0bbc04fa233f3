use futures_channel::oneshot;
use tokio_rusqlite::call::prepare;
use tokio_rusqlite::close::settle;
use tokio_rusqlite::inline::{start, Handle};
use tokio_rusqlite::{Connection, Error};

fn call_raw<F, R>(handle: &mut Handle, function: F) -> Result<R, Error>
where
    F: FnOnce(&mut rusqlite::Connection) -> R + Send + 'static,
    R: Send + 'static,
{
    let mut receiver: oneshot::Receiver<R> = handle.call_raw(function)?;
    Connection::finish_call_raw(match receiver.try_recv() {
        Ok(Some(value)) => Ok(value),
        Ok(None) => panic!("the function has not run"),
        Err(canceled) => Err(canceled),
    })
}

fn open() -> Handle {
    start(rusqlite::Connection::open_in_memory).ok().expect("open")
}

#[test]
fn start_wraps_what_was_opened() {
    let mut handle = open();
    let changed = call_raw(&mut handle, |conn: &mut rusqlite::Connection| {
        conn.execute("CREATE TABLE t (x INTEGER)", []).expect("create");
        conn.execute("INSERT INTO t VALUES (1), (2), (3)", [])
    });
    assert_eq!(changed.ok(), Some(Ok(3)));
}

#[test]
fn start_returns_the_error() {
    let failed = start(|| Err(rusqlite::Error::QueryReturnedNoRows)).err().expect("failed");
    assert_eq!(failed, rusqlite::Error::QueryReturnedNoRows);
}

#[test]
fn function_has_run_when_submit_returns() {
    let mut handle = open();
    let (sender, receiver) = crossbeam_channel::unbounded();
    let (packed, _) = prepare(move |_: &mut rusqlite::Connection| sender.send(5).is_ok());
    assert!(handle.submit(packed).is_ok());
    assert_eq!(receiver.try_recv(), Ok(5));
}

#[test]
fn closed_handle_refuses_calls_and_closes_again() {
    let mut handle = open();
    assert!(handle.close().is_ok());
    assert!(matches!(call_raw(&mut handle, |_: &mut rusqlite::Connection| 1), Err(Error::ConnectionClosed)));
    assert!(handle.close().is_ok());
    assert!(matches!(call_raw(&mut handle, |_: &mut rusqlite::Connection| 1), Err(Error::ConnectionClosed)));
}

#[test]
fn failed_close_puts_the_connection_back() {
    let mut handle = open();
    let leaked = call_raw(&mut handle, |conn: &mut rusqlite::Connection| {
        std::mem::forget(conn.prepare("SELECT 1").expect("prepare"));
    });
    assert!(leaked.is_ok());
    let e = handle.close().err().expect("busy");
    assert_eq!(e.sqlite_error_code(), Some(rusqlite::ErrorCode::DatabaseBusy));
    assert_eq!(call_raw(&mut handle, |_: &mut rusqlite::Connection| 9).ok(), Some(9));
    assert!(handle.close().is_err());
}

#[test]
fn settle_parts_the_report_from_the_connection() {
    let (report, kept) = settle(Ok(()));
    assert!(report.is_ok());
    assert!(kept.is_none());
    let conn = rusqlite::Connection::open_in_memory().expect("open");
    let (report, kept) = settle(Err((conn, rusqlite::Error::QueryReturnedNoRows)));
    assert_eq!(report, Err(rusqlite::Error::QueryReturnedNoRows));
    assert!(kept.is_some());
}

#[test]
fn call_brings_the_errors_together() {
    let mut handle = open();
    let mut good = handle.call(|_: &mut rusqlite::Connection| Ok::<u64, u8>(4)).ok().expect("run");
    let mut bad = handle.call(|_: &mut rusqlite::Connection| Err::<u64, u8>(7)).ok().expect("run");
    assert_eq!(good.try_recv(), Ok(Some(Ok(4))));
    let failed = bad.try_recv().expect("sent").expect("run");
    assert!(matches!(Connection::finish_call(Ok(failed)), Err(Error::Error(7))));
    assert!(handle.close().is_ok());
    let refused = handle.call(|_: &mut rusqlite::Connection| Ok::<u64, u8>(4));
    assert!(matches!(refused, Err(Error::ConnectionClosed)));
}

#[test]
fn call_unwrap_refuses_only_when_closed() {
    let mut handle = open();
    let mut value = handle.call_unwrap(|_: &mut rusqlite::Connection| 8).ok().expect("run");
    let received = Ok(value.try_recv().expect("sent").expect("run"));
    assert_eq!(Connection::finish_call_unwrap(received), 8);
    assert!(handle.close().is_ok());
    assert!(handle.call_unwrap(|_: &mut rusqlite::Connection| 8).is_err());
}

#[test]
fn increments_add_up_inline() {
    let mut handle = open();
    let setup = call_raw(&mut handle, |conn: &mut rusqlite::Connection| {
        conn.execute_batch("CREATE TABLE counter (n INTEGER); INSERT INTO counter VALUES (0)")
    });
    assert_eq!(setup.ok(), Some(Ok(())));
    for _ in 0..10 {
        let changed = call_raw(&mut handle, |conn: &mut rusqlite::Connection| {
            conn.execute("UPDATE counter SET n = n + 1", [])
        });
        assert_eq!(changed.ok(), Some(Ok(1)));
    }
    let total = call_raw(&mut handle, |conn: &mut rusqlite::Connection| {
        conn.query_row("SELECT n FROM counter", [], |row| row.get::<_, i64>(0))
    });
    assert_eq!(total.ok(), Some(Ok(10)));
}
