use futures_channel::oneshot;
use std::path::PathBuf;
use tokio_rusqlite::open::{has_nul, SQLITE_OPEN_CREATE, SQLITE_OPEN_READ_WRITE};
use tokio_rusqlite::{Closing, Connection, Error, OpenFlags, OpenRequest, Served, Server, Starting};

/// Plays the background thread up to the point where it serves, and the task that opens.
fn finish(starting: Starting) -> Result<(Connection, Server), rusqlite::Error> {
    let Starting { handle, mut opened, worker } = starting;
    let server = worker.open();
    let report = opened.try_recv().expect("reported").expect("report");
    match Connection::finish_open(handle, report) {
        Ok(conn) => Ok((conn, server.expect("server"))),
        Err(e) => {
            assert!(server.is_none());
            Err(e)
        }
    }
}

fn open() -> (Connection, Server) {
    finish(Connection::open_in_memory()).expect("open")
}

/// Lets the background thread serve the next message.
fn turn(server: Server) -> Served {
    let received = server.receiver.recv();
    server.serve(received)
}

fn running(served: Served) -> Server {
    match served {
        Served::Running(server) => server,
        _ => panic!("the thread ended"),
    }
}

/// Awaits a receiver whose answer is there.
fn wait<T>(mut receiver: oneshot::Receiver<T>) -> Result<T, oneshot::Canceled> {
    match receiver.try_recv() {
        Ok(Some(value)) => Ok(value),
        Ok(None) => panic!("nothing has come yet"),
        Err(canceled) => Err(canceled),
    }
}

/// Awaits an attempt to close whose answer is there.
fn answer(closing: Closing) -> Option<Result<Result<(), rusqlite::Error>, oneshot::Canceled>> {
    match closing {
        Closing::Gone => None,
        Closing::Asked(receiver) => Some(wait(receiver)),
    }
}

fn create_table(conn: &mut rusqlite::Connection) -> Result<usize, rusqlite::Error> {
    conn.execute("CREATE TABLE person (id INTEGER PRIMARY KEY, name TEXT NOT NULL)", [])
}

/// Leaves a statement behind that keeps the database from being closed.
fn leak_statement(conn: &mut rusqlite::Connection) {
    let statement = conn.prepare("SELECT 1").expect("prepare");
    std::mem::forget(statement);
}

fn closed(error: Result<u64, Error>) -> bool {
    matches!(error, Err(Error::ConnectionClosed))
}

#[test]
fn open_in_memory_works() {
    assert!(finish(Connection::open_in_memory()).is_ok());
}

#[test]
fn call_runs_on_the_connection() {
    let (conn, server) = open();
    let receiver = conn.call(create_table).ok().expect("accepted");
    running(turn(server));
    let affected = Connection::finish_call(wait(receiver)).ok().expect("create table");
    assert_eq!(affected, 0);
}

#[test]
fn insert_and_query_round_trip() {
    let (conn, server) = open();
    let receiver = conn
        .call(|conn: &mut rusqlite::Connection| {
            create_table(conn)?;
            conn.execute("INSERT INTO person (name) VALUES (?1)", ["Steven"])?;
            let mut stmt = conn.prepare("SELECT name FROM person")?;
            let names = stmt
                .query_map([], |row| row.get::<_, String>(0))?
                .collect::<Result<Vec<String>, rusqlite::Error>>()?;
            Ok::<_, rusqlite::Error>(names)
        })
        .ok()
        .expect("accepted");
    running(turn(server));
    let names = Connection::finish_call(wait(receiver)).ok().expect("round trip");
    assert_eq!(names, vec!["Steven".to_string()]);
}

#[test]
fn call_raw_reports_values() {
    let (conn, server) = open();
    let good = conn.call_raw(|_: &mut rusqlite::Connection| Ok::<(), ()>(())).ok().expect("call");
    let bad = conn.call_raw(|_: &mut rusqlite::Connection| Err::<(), ()>(())).ok().expect("call");
    let server = running(turn(server));
    running(turn(server));
    assert!(Connection::finish_call_raw(wait(good)).ok().expect("call").is_ok());
    assert!(Connection::finish_call_raw(wait(bad)).ok().expect("call").is_err());
}

#[test]
fn close_succeeds() {
    let (conn, server) = open();
    let (conn, closing) = conn.close();
    assert!(matches!(turn(server), Served::Stopped));
    assert!(conn.finish_close(answer(closing)).is_ok());
}

#[test]
fn double_close_is_ok() {
    let (conn, server) = open();
    let conn2 = conn.clone();
    let (conn, closing) = conn.close();
    assert!(matches!(turn(server), Served::Stopped));
    assert!(conn.finish_close(answer(closing)).is_ok());
    let (conn2, closing) = conn2.close();
    assert!(matches!(closing, Closing::Gone));
    assert!(conn2.finish_close(answer(closing)).is_ok());
}

#[test]
fn call_after_close_reports_closed() {
    let (conn, server) = open();
    let conn2 = conn.clone();
    let (conn, closing) = conn.close();
    assert!(matches!(turn(server), Served::Stopped));
    conn.finish_close(answer(closing)).ok().expect("close");
    let refused = conn2.call(|conn: &mut rusqlite::Connection| conn.execute("SELECT 1", []));
    assert!(matches!(refused, Err(Error::ConnectionClosed)));
    assert!(matches!(conn2.call_raw(|_: &mut rusqlite::Connection| 1), Err(Error::ConnectionClosed)));
    assert!(conn2.call_unwrap(|_: &mut rusqlite::Connection| 1).is_err());
}

#[test]
fn messages_behind_a_close_are_dropped() {
    let (conn, server) = open();
    let other = conn.clone();
    let (conn, closing) = conn.close();
    let receiver = other.call_raw(|_: &mut rusqlite::Connection| 7u64).ok().expect("queued");
    let (other, second) = other.close();
    assert!(matches!(turn(server), Served::Stopped));
    assert!(conn.finish_close(answer(closing)).is_ok());
    assert!(closed(Connection::finish_call_raw(wait(receiver))));
    assert!(matches!(second, Closing::Asked(_)));
    assert!(other.finish_close(answer(second)).is_ok());
}

#[test]
fn failed_close_keeps_the_connection_for_a_retry() {
    let (conn, server) = open();
    let receiver = conn.call_raw(leak_statement).ok().expect("queued");
    let server = running(turn(server));
    Connection::finish_call_raw(wait(receiver)).ok().expect("leak");

    let (conn, closing) = conn.close();
    let server = running(turn(server));
    let (conn, e) = match conn.finish_close(answer(closing)) {
        Err(Error::Close(returned)) => returned,
        _ => panic!("the database cannot be closed"),
    };
    assert_eq!(e.sqlite_error_code(), Some(rusqlite::ErrorCode::DatabaseBusy));

    let receiver = conn.call_raw(|conn: &mut rusqlite::Connection| create_table(conn)).ok().expect("open");
    let server = running(turn(server));
    assert_eq!(Connection::finish_call_raw(wait(receiver)).ok().expect("open"), Ok(0));

    let (conn, closing) = conn.close();
    running(turn(server));
    assert!(matches!(conn.finish_close(answer(closing)), Err(Error::Close(_))));
}

#[test]
fn functions_run_in_submission_order() {
    let (conn, server) = open();
    let other = conn.clone();
    let create = conn.call(create_table).ok().expect("queued");
    let first = other
        .call_raw(|conn: &mut rusqlite::Connection| {
            conn.execute("INSERT INTO person (name) VALUES ('a')", []).expect("insert");
            conn.last_insert_rowid()
        })
        .ok()
        .expect("queued");
    let second = conn
        .call_raw(|conn: &mut rusqlite::Connection| {
            conn.execute("INSERT INTO person (name) VALUES ('b')", []).expect("insert");
            conn.last_insert_rowid()
        })
        .ok()
        .expect("queued");
    let server = running(turn(server));
    let server = running(turn(server));
    running(turn(server));
    assert_eq!(Connection::finish_call(wait(create)).ok(), Some(0));
    assert_eq!(Connection::finish_call_raw(wait(first)).ok(), Some(1));
    assert_eq!(Connection::finish_call_raw(wait(second)).ok(), Some(2));
}

#[test]
fn thread_ends_when_every_handle_is_dropped() {
    let (conn, server) = open();
    let copy = conn.clone();
    let receiver = copy.call_raw(|_: &mut rusqlite::Connection| 3).ok().expect("queued");
    drop(conn);
    drop(copy);
    let server = running(turn(server));
    assert_eq!(Connection::finish_call_raw(wait(receiver)).ok(), Some(3));
    assert!(matches!(turn(server), Served::Stopped));
}

#[test]
fn close_that_nobody_waits_for_is_unheard() {
    let (conn, server) = open();
    let (_conn, closing) = conn.close();
    drop(closing);
    assert!(matches!(turn(server), Served::Unheard));
}

#[test]
fn call_whose_caller_is_gone_still_runs() {
    let (conn, server) = open();
    let (sender, receiver) = crossbeam_channel::unbounded();
    drop(conn.call_raw(move |_: &mut rusqlite::Connection| sender.send(11).is_ok()));
    running(turn(server));
    assert_eq!(receiver.try_recv(), Ok(11));
}

#[test]
fn call_tells_the_errors_apart() {
    let (conn, server) = open();
    let receiver = conn.call(|_: &mut rusqlite::Connection| Err::<(), _>("own")).ok().expect("queued");
    running(turn(server));
    assert!(matches!(Connection::finish_call(wait(receiver)), Err(Error::Error("own"))));
    let canceled: Result<Result<u8, &str>, _> = Err(oneshot::Canceled);
    assert!(matches!(Connection::finish_call(canceled), Err(Error::ConnectionClosed)));
    assert_eq!(Connection::finish_call(Ok(Ok::<u8, &str>(4))).ok(), Some(4));
}

#[test]
fn call_unwrap_gives_the_value() {
    let (conn, server) = open();
    let receiver = conn.call_unwrap(|_: &mut rusqlite::Connection| 42).expect("open");
    running(turn(server));
    let received = wait(receiver);
    assert!(received.is_ok());
    assert_eq!(Connection::finish_call_unwrap(received), 42);
}

#[test]
fn already_open_connection_is_served() {
    let sqlite = rusqlite::Connection::open_in_memory().expect("open");
    sqlite.execute("CREATE TABLE t (x INTEGER)", []).expect("create");
    let (conn, server) = Connection::from_connection(sqlite);
    let receiver = conn
        .call(|conn: &mut rusqlite::Connection| conn.execute("INSERT INTO t VALUES (1), (2)", []))
        .ok()
        .expect("queued");
    running(turn(server));
    assert_eq!(Connection::finish_call(wait(receiver)).ok(), Some(2));
}

#[test]
fn open_asks_for_read_write_and_create() {
    let starting = Connection::open(PathBuf::from("a.db"));
    assert_eq!(SQLITE_OPEN_READ_WRITE, rusqlite::OpenFlags::SQLITE_OPEN_READ_WRITE.bits());
    assert_eq!(SQLITE_OPEN_CREATE, rusqlite::OpenFlags::SQLITE_OPEN_CREATE.bits());
    match starting.worker.request {
        OpenRequest::Path { path, flags } => {
            assert_eq!(path, PathBuf::from("a.db"));
            assert_eq!(flags, OpenFlags { bits: 6 });
        }
        _ => panic!("another request"),
    }
}

#[test]
fn open_opens_the_path() {
    assert!(finish(Connection::open(PathBuf::from(":memory:"))).is_ok());
    let failed = finish(Connection::open(PathBuf::from("/no/such/directory/a.db"))).err().expect("failed");
    assert_eq!(failed.sqlite_error_code(), Some(rusqlite::ErrorCode::CannotOpen));
    let failed = finish(Connection::open(PathBuf::from("a\0b"))).err().expect("failed");
    assert!(matches!(failed, rusqlite::Error::NulError(_)));
}

#[test]
fn open_with_flags_uses_the_flags() {
    let memory = PathBuf::from(":memory:");
    assert!(finish(Connection::open_with_flags(memory.clone(), OpenFlags { bits: 6 })).is_ok());
    assert!(finish(Connection::open_with_flags(memory, OpenFlags { bits: 0 })).is_err());
}

#[test]
fn open_with_flags_and_vfs_uses_both() {
    let memory = PathBuf::from(":memory:");
    let flags = OpenFlags { bits: 6 };
    assert!(finish(Connection::open_with_flags_and_vfs(memory.clone(), flags, "unix")).is_ok());
    assert!(finish(Connection::open_with_flags_and_vfs(memory.clone(), flags, "no such vfs")).is_err());
    assert!(finish(Connection::open_with_flags_and_vfs(memory, OpenFlags { bits: 0 }, "unix")).is_err());
}

#[test]
fn open_in_memory_with_flags_uses_the_flags() {
    assert!(finish(Connection::open_in_memory_with_flags(OpenFlags { bits: 6 })).is_ok());
    assert!(finish(Connection::open_in_memory_with_flags(OpenFlags { bits: 0 })).is_err());
}

#[test]
fn open_in_memory_with_flags_and_vfs_uses_both() {
    let flags = OpenFlags { bits: 6 };
    assert!(finish(Connection::open_in_memory_with_flags_and_vfs(flags, "unix")).is_ok());
    assert!(finish(Connection::open_in_memory_with_flags_and_vfs(flags, "no such vfs")).is_err());
    assert!(finish(Connection::open_in_memory_with_flags_and_vfs(flags, "a\0b")).is_err());
}

#[test]
fn opening_that_nobody_waits_for_is_not_served() {
    let Starting { handle, opened, worker } = Connection::open_in_memory();
    drop(opened);
    assert!(worker.open().is_none());
    let conn = Connection::finish_open(handle, Ok(())).expect("given");
    assert!(matches!(conn.call_raw(|_: &mut rusqlite::Connection| 1), Err(Error::ConnectionClosed)));
}

#[test]
fn failed_close_that_nobody_waits_for_is_served_on() {
    let (conn, server) = open();
    let leaked = conn.call_raw(leak_statement).ok().expect("accepted");
    let server = running(turn(server));
    assert!(wait(leaked).is_ok());
    let (conn, closing) = conn.close();
    drop(closing);
    let server = running(turn(server));
    let receiver = conn.call_raw(|_: &mut rusqlite::Connection| 5u64).ok().expect("accepted");
    running(turn(server));
    assert_eq!(Connection::finish_call_raw(wait(receiver)).ok(), Some(5));
}

#[test]
fn call_after_a_reported_close_is_refused_and_never_run() {
    let (conn, server) = open();
    let copy = conn.clone();
    let (sender, ran) = crossbeam_channel::unbounded();
    let late = sender.clone();
    let (conn, closing) = conn.close();
    let queued = copy.call_raw(move |_: &mut rusqlite::Connection| sender.send(1).is_ok());
    assert!(matches!(turn(server), Served::Stopped));
    assert!(conn.finish_close(answer(closing)).is_ok());
    assert!(copy.call_raw(move |_: &mut rusqlite::Connection| late.send(2).is_ok()).is_err());
    assert!(wait(queued.ok().expect("accepted")).is_err());
    assert!(ran.try_recv().is_err());
}

#[test]
fn increments_through_clones_add_up() {
    let (conn, mut server) = open();
    let setup = conn.call(|conn: &mut rusqlite::Connection| {
        conn.execute_batch("CREATE TABLE counter (n INTEGER); INSERT INTO counter VALUES (0)")
    });
    server = running(turn(server));
    assert!(wait(setup.ok().expect("accepted")).expect("set up").is_ok());
    let clones = vec![conn.clone(); 10];
    let receivers: Vec<_> = clones
        .iter()
        .map(|clone| {
            clone
                .call(|conn: &mut rusqlite::Connection| {
                    conn.execute("UPDATE counter SET n = n + 1", [])
                })
                .ok()
                .expect("accepted")
        })
        .collect();
    for receiver in receivers {
        server = running(turn(server));
        assert_eq!(Connection::finish_call(wait(receiver)).ok(), Some(1));
    }
    let total = conn
        .call(|conn: &mut rusqlite::Connection| {
            conn.query_row("SELECT n FROM counter", [], |row| row.get::<_, i64>(0))
        })
        .ok()
        .expect("accepted");
    running(turn(server));
    assert_eq!(Connection::finish_call(wait(total)).ok(), Some(10));
}

#[test]
fn path_with_a_nul_cannot_be_opened() {
    assert!(has_nul(&PathBuf::from("a\0b")));
    assert!(has_nul(&PathBuf::from("\0")));
    assert!(!has_nul(&PathBuf::from("ab")));
    assert!(!has_nul(&PathBuf::from("")));
    assert!(finish(Connection::open(PathBuf::from("a\0b"))).is_err());
    let flags = OpenFlags { bits: SQLITE_OPEN_READ_WRITE | SQLITE_OPEN_CREATE };
    let asked = Connection::open_with_flags_and_vfs(PathBuf::from("ab"), flags, "un\0ix");
    assert!(asked.worker.open().is_none());
}

#[test]
fn debug_gives_the_name_alone() {
    let (conn, _server) = open();
    assert_eq!(format!("{conn:?}"), "Connection");
    assert_eq!(format!("{conn:#?}"), "Connection");
    let error: Error = Error::Close((conn, rusqlite::Error::QueryReturnedNoRows));
    assert_eq!(format!("{error:?}"), "Close((Connection, QueryReturnedNoRows))");
}

#[test]
fn thread_that_ends_early_refuses_what_comes_after() {
    let (conn, server) = open();
    let queued = conn.call_raw(|_: &mut rusqlite::Connection| 1u64).ok().expect("accepted");
    drop(server);
    assert!(closed(Connection::finish_call_raw(wait(queued))));
    assert!(matches!(conn.call_raw(|_: &mut rusqlite::Connection| 2), Err(Error::ConnectionClosed)));
    let (conn, closing) = conn.close();
    assert!(matches!(closing, Closing::Gone));
    assert!(conn.finish_close(None).is_ok());
}
