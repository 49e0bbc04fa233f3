use tokio_rusqlite::call::prepare;
use tokio_rusqlite::inline::Handle;
use tokio_rusqlite::{Closing, Connection, Error, Served, Server};

/// What is asked of a connection.
#[derive(Clone, Copy)]
enum Ask {
    Count,
    Leak,
    Close,
}

/// What came back.
#[derive(Debug, PartialEq)]
enum Got {
    Value(i64),
    ConnectionClosed,
    Closed,
    Busy,
}

fn count(conn: &mut rusqlite::Connection) -> i64 {
    conn.execute("CREATE TABLE IF NOT EXISTS t (x INTEGER PRIMARY KEY)", []).expect("create");
    conn.execute("INSERT INTO t DEFAULT VALUES", []).expect("insert");
    conn.last_insert_rowid()
}

fn leak(conn: &mut rusqlite::Connection) -> i64 {
    std::mem::forget(conn.prepare("SELECT 1").expect("prepare"));
    0
}

fn sqlite() -> rusqlite::Connection {
    rusqlite::Connection::open_in_memory().expect("open")
}

fn got(result: Result<i64, Error>) -> Got {
    match result {
        Ok(value) => Got::Value(value),
        Err(_) => Got::ConnectionClosed,
    }
}

fn ask_inline(asks: &[Ask]) -> Vec<Got> {
    let mut handle = Handle::from_connection(sqlite());
    let mut answers = Vec::new();
    for ask in asks {
        answers.push(match ask {
            Ask::Close => match handle.close() {
                Ok(()) => Got::Closed,
                Err(_) => Got::Busy,
            },
            call => {
                let function: fn(&mut rusqlite::Connection) -> i64 =
                    if matches!(call, Ask::Count) { count } else { leak };
                let (packed, mut receiver) = prepare(function);
                match handle.submit(packed) {
                    Err(_) => Got::ConnectionClosed,
                    Ok(()) => {
                        let value = receiver.try_recv().expect("sent").expect("run");
                        got(Connection::finish_call_raw(Ok(value)))
                    }
                }
            }
        });
    }
    answers
}

fn turn(server: Option<Server>) -> Option<Server> {
    let server = server?;
    let received = server.receiver.recv();
    match server.serve(received) {
        Served::Running(next) => Some(next),
        _ => None,
    }
}

fn ask_thread(asks: &[Ask]) -> Vec<Got> {
    let (conn, server) = Connection::from_connection(sqlite());
    let mut server = Some(server);
    let mut answers = Vec::new();
    for ask in asks {
        let conn = conn.clone();
        answers.push(match ask {
            Ask::Close => {
                let (conn, closing) = conn.close();
                let answer = match closing {
                    Closing::Gone => None,
                    Closing::Asked(mut receiver) => {
                        server = turn(server);
                        Some(Ok(receiver.try_recv().expect("sent").expect("served")))
                    }
                };
                match conn.finish_close(answer) {
                    Ok(()) => Got::Closed,
                    Err(_) => Got::Busy,
                }
            }
            call => {
                let function: fn(&mut rusqlite::Connection) -> i64 =
                    if matches!(call, Ask::Count) { count } else { leak };
                match conn.call_raw(function) {
                    Err(e) => got(Err(e)),
                    Ok(mut receiver) => {
                        server = turn(server);
                        let value = receiver.try_recv().expect("sent").expect("run");
                        got(Connection::finish_call_raw(Ok(value)))
                    }
                }
            }
        });
    }
    answers
}

#[test]
fn backends_give_the_same_answers() {
    let asks = [Ask::Count, Ask::Count, Ask::Close, Ask::Count, Ask::Close, Ask::Leak];
    let expected = vec![
        Got::Value(1),
        Got::Value(2),
        Got::Closed,
        Got::ConnectionClosed,
        Got::Closed,
        Got::ConnectionClosed,
    ];
    assert_eq!(ask_inline(&asks), expected);
    assert_eq!(ask_thread(&asks), expected);
}

#[test]
fn backends_stay_open_after_a_failed_close() {
    let asks = [Ask::Count, Ask::Leak, Ask::Close, Ask::Count, Ask::Close, Ask::Count];
    let expected = vec![
        Got::Value(1),
        Got::Value(0),
        Got::Busy,
        Got::Value(2),
        Got::Busy,
        Got::Value(3),
    ];
    assert_eq!(ask_inline(&asks), expected);
    assert_eq!(ask_thread(&asks), expected);
}
