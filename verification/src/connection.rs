//! The handle that callers hold.

use futures_channel::oneshot;
use std::path::PathBuf;
use vstd::prelude::*;

use crate::call::{await_submitted, flatten};
use crate::error::{Closed, Error};
use crate::open::{OpenFlags, OpenRequest, SQLITE_OPEN_CREATE, SQLITE_OPEN_READ_WRITE};
use crate::owner::{Owner, Share};
use crate::threaded::{self, Closing, Handle, Pending, Server, Starting};

verus! {

/// A handle to call functions in a background thread.
///
/// Whatever has to wait comes in two parts: the method of that name does what comes before the
/// waiting, and the `finish_` method of that name takes what was waited for and does the rest.
pub struct Connection<H = Handle> {
    handle: H,
}

/// What the caller is told of an opening: the handle is good, or the error that was reported.
pub open spec fn open_result(handle: Handle, report: Result<(), rusqlite::Error>) -> Result<
    Handle,
    rusqlite::Error,
> {
    match report {
        Ok(()) => Ok(handle),
        Err(e) => Err(e),
    }
}

/// What the caller is told of an attempt to close `conn`. A failure hands the connection back.
pub open spec fn close_result(
    conn: Connection,
    report: Result<(), rusqlite::Error>,
) -> Result<(), Error> {
    match report {
        Ok(()) => Ok(()),
        Err(e) => Err(Error::Close((conn, e))),
    }
}

// What follows knows of the handle only that functions can be handed to it, so that a call does
// nothing but this to the connection that it is made on.
impl<H> Connection<H> {
    /// The handle to the background thread.
    pub closed spec fn handle(self) -> H {
        self.handle
    }

    /// `function` is packed up so that its value goes to `receiver`, handed over, and `submitted`
    /// says whether it was taken.
    pub open spec fn submits<F, R>(
        self,
        function: F,
        receiver: oneshot::Receiver<R>,
        submitted: Result<(), Closed>,
    ) -> bool where F: FnOnce(&mut rusqlite::Connection) -> R, H: Owner<F, R> {
        exists|packed: H::Packed|
            {
                &&& #[trigger] H::holds(function, packed, receiver)
                &&& #[trigger] self.handle().may_take(packed, submitted)
            }
    }

    /// Hand over `function`, and nothing else, and keep the receiver of its value.
    fn submit<F, R>(&self, function: F) -> (submission: (
        oneshot::Receiver<R>,
        Result<(), Closed>,
    )) where
        F: FnOnce(&mut rusqlite::Connection) -> R + 'static + Send,
        R: Send + 'static,
        H: Owner<F, R>,

        requires
            forall|conn: &mut rusqlite::Connection| call_requires(function, (conn,)),
        ensures
            self.submits(function, submission.0, submission.1),
    {
        let (packed, receiver) = H::pack(function);
        let submitted = self.handle.put(packed);
        assert(self.handle() == self.handle);
        (receiver, submitted)
    }

    /// Call a function in background thread and get the result asynchronously.
    ///
    /// # Failure
    ///
    /// Will return `Err` if the database connection has been closed.
    pub fn call<F, R, E>(&self, function: F) -> (waiting: Result<
        oneshot::Receiver<Result<R, E>>,
        Error<E>,
    >) where
        F: FnOnce(&mut rusqlite::Connection) -> Result<R, E> + 'static + Send,
        R: Send + 'static,
        E: Send + 'static,
        H: Owner<F, Result<R, E>>,

        requires
            forall|conn: &mut rusqlite::Connection| call_requires(function, (conn,)),
        ensures
            exists|receiver: oneshot::Receiver<Result<R, E>>, submitted: Result<(), Closed>|
                {
                    &&& #[trigger] self.submits(function, receiver, submitted)
                    &&& waiting == crate::call::pending::<Result<R, E>, E>(submitted, receiver)
                },
    {
        match self.call_raw(function) {
            Ok(receiver) => Ok(receiver),
            Err(_) => Err(Error::ConnectionClosed),
        }
    }

    /// Call a function in background thread and get the result asynchronously.
    ///
    /// # Failure
    ///
    /// Will return `Err` if the database connection has been closed.
    pub fn call_raw<F, R>(&self, function: F) -> (waiting: Result<
        oneshot::Receiver<R>,
        Error,
    >) where
        F: FnOnce(&mut rusqlite::Connection) -> R + 'static + Send,
        R: Send + 'static,
        H: Owner<F, R>,

        requires
            forall|conn: &mut rusqlite::Connection| call_requires(function, (conn,)),
        ensures
            exists|receiver: oneshot::Receiver<R>, submitted: Result<(), Closed>|
                {
                    &&& #[trigger] self.submits(function, receiver, submitted)
                    &&& waiting == crate::call::pending::<R, rusqlite::Error>(submitted, receiver)
                },
    {
        let (receiver, submitted) = self.submit(function);
        await_submitted(submitted, receiver)
    }

    /// Call a function in background thread and get the result asynchronously.
    ///
    /// It is a more user-friendly alternative to the [`Connection::call`] method, for a
    /// connection that is never explicitly closed (using the [`Connection::close`] call): the
    /// caller takes [`Closed`] for a bug of its own.
    pub fn call_unwrap<F, R>(&self, function: F) -> (waiting: Result<
        oneshot::Receiver<R>,
        Closed,
    >) where
        F: FnOnce(&mut rusqlite::Connection) -> R + Send + 'static,
        R: Send + 'static,
        H: Owner<F, R>,

        requires
            forall|conn: &mut rusqlite::Connection| call_requires(function, (conn,)),
        ensures
            exists|receiver: oneshot::Receiver<R>, submitted: Result<(), Closed>|
                {
                    &&& #[trigger] self.submits(function, receiver, submitted)
                    &&& waiting == match submitted {
                        Ok(()) => Ok(receiver),
                        Err(closed) => Err(closed),
                    }
                },
    {
        let (receiver, submitted) = self.submit(function);
        match submitted {
            Ok(()) => Ok(receiver),
            Err(closed) => Err(closed),
        }
    }
}

impl Connection {
    /// Open a new connection to a SQLite database.
    ///
    /// `Connection::open(path)` is equivalent to `Connection::open_with_flags(path,
    /// SQLITE_OPEN_READ_WRITE | SQLITE_OPEN_CREATE)`.
    ///
    /// # Failure
    ///
    /// Will fail if `path` cannot be converted to a C-compatible string or if the underlying
    /// SQLite open call fails.
    pub fn open(path: PathBuf) -> (starting: Starting)
        ensures
            starting.worker.request == (OpenRequest::Path {
                path,
                flags: OpenFlags { bits: SQLITE_OPEN_READ_WRITE | SQLITE_OPEN_CREATE },
            }),
            starting.connected(),
        opens_invariants none
    {
        Connection::open_with_flags(
            path,
            OpenFlags { bits: SQLITE_OPEN_READ_WRITE | SQLITE_OPEN_CREATE },
        )
    }

    /// Open a new connection to an in-memory SQLite database.
    ///
    /// # Failure
    ///
    /// Will fail if the underlying SQLite open call fails.
    pub fn open_in_memory() -> (starting: Starting)
        ensures
            starting.worker.request == OpenRequest::Memory,
            starting.connected(),
        opens_invariants none
    {
        threaded::start(OpenRequest::Memory)
    }

    /// Open a new connection to a SQLite database.
    ///
    /// [Database Connection](http://www.sqlite.org/c3ref/open.html) for a description of valid
    /// flag combinations.
    ///
    /// # Failure
    ///
    /// Will fail if `path` cannot be converted to a C-compatible string or if the underlying
    /// SQLite open call fails.
    pub fn open_with_flags(path: PathBuf, flags: OpenFlags) -> (starting: Starting)
        ensures
            starting.worker.request == (OpenRequest::Path { path, flags }),
            starting.connected(),
        opens_invariants none
    {
        threaded::start(OpenRequest::Path { path, flags })
    }

    /// Open a new connection to a SQLite database using the specific flags and vfs name.
    ///
    /// [Database Connection](http://www.sqlite.org/c3ref/open.html) for a description of valid
    /// flag combinations.
    ///
    /// # Failure
    ///
    /// Will fail if either `path` or `vfs` cannot be converted to a C-compatible string or if the
    /// underlying SQLite open call fails.
    pub fn open_with_flags_and_vfs(path: PathBuf, flags: OpenFlags, vfs: &str) -> (starting:
        Starting)
        ensures
            starting.worker.request matches OpenRequest::PathAndVfs {
                path: asked_path,
                flags: asked_flags,
                vfs: asked_vfs,
            } && asked_path == path && asked_flags == flags && asked_vfs@ == vfs@,
            starting.connected(),
    {
        threaded::start(OpenRequest::PathAndVfs { path, flags, vfs: vfs.to_owned() })
    }

    /// Open a new connection to an in-memory SQLite database.
    ///
    /// [Database Connection](http://www.sqlite.org/c3ref/open.html) for a description of valid
    /// flag combinations.
    ///
    /// # Failure
    ///
    /// Will fail if the underlying SQLite open call fails.
    pub fn open_in_memory_with_flags(flags: OpenFlags) -> (starting: Starting)
        ensures
            starting.worker.request == (OpenRequest::MemoryWithFlags { flags }),
            starting.connected(),
        opens_invariants none
    {
        threaded::start(OpenRequest::MemoryWithFlags { flags })
    }

    /// Open a new connection to an in-memory SQLite database using the specific flags and vfs
    /// name.
    ///
    /// [Database Connection](http://www.sqlite.org/c3ref/open.html) for a description of valid
    /// flag combinations.
    ///
    /// # Failure
    ///
    /// Will fail if `vfs` cannot be converted to a C-compatible string or if the underlying
    /// SQLite open call fails.
    pub fn open_in_memory_with_flags_and_vfs(flags: OpenFlags, vfs: &str) -> (starting: Starting)
        ensures
            starting.worker.request matches OpenRequest::MemoryWithFlagsAndVfs {
                flags: asked_flags,
                vfs: asked_vfs,
            } && asked_flags == flags && asked_vfs@ == vfs@,
            starting.connected(),
    {
        threaded::start(OpenRequest::MemoryWithFlagsAndVfs { flags, vfs: vfs.to_owned() })
    }

    /// The connection, once the background thread has reported that the database is open.
    /// Otherwise the error that it reported.
    pub fn finish_open(handle: Pending, report: Result<(), rusqlite::Error>) -> (opened: Result<
        Self,
        rusqlite::Error,
    >)
        ensures
            match (open_result(handle.handle(), report), opened) {
                (Ok(given), Ok(conn)) => conn.handle() == given,
                (Err(e), Err(failed)) => failed == e,
                _ => false,
            },
        opens_invariants none
    {
        match report {
            Ok(()) => Ok(Connection { handle: handle.ready() }),
            Err(e) => Err(e),
        }
    }

    /// The connection to an already-open database, and the server to be run on a new thread.
    pub fn from_connection(conn: rusqlite::Connection) -> (served: (Self, Server))
        ensures
            served.1.conn == conn,
            served.0.handle().feeds(served.1.receiver),
        opens_invariants none
    {
        let (handle, server) = Handle::from_connection(conn);
        (Connection { handle }, server)
    }

    /// What [`Connection::call`] comes to.
    ///
    /// # Failure
    ///
    /// Will return `Err` if the database connection has been closed.
    /// Will return `Error::Error` wrapping the inner error if the function failed.
    pub fn finish_call<R, E>(received: Result<Result<R, E>, oneshot::Canceled>) -> (result: Result<
        R,
        Error<E>,
    >)
        ensures
            result == crate::call::call_result(received),
        opens_invariants none
    {
        flatten(Connection::finish_call_raw(received))
    }

    /// What [`Connection::call_raw`] comes to.
    ///
    /// # Failure
    ///
    /// Will return `Err` if the database connection has been closed.
    pub fn finish_call_raw<R>(received: Result<R, oneshot::Canceled>) -> (result: Result<R, Error>)
        ensures
            result == crate::call::raw_result(received),
        opens_invariants none
    {
        match received {
            Ok(value) => Ok(value),
            Err(_) => Err(Error::ConnectionClosed),
        }
    }

    /// What [`Connection::call_unwrap`] comes to: the value of the function, which has to have
    /// come.
    pub fn finish_call_unwrap<R>(received: Result<R, oneshot::Canceled>) -> (value: R)
        requires
            received is Ok,
        ensures
            received == Ok::<R, oneshot::Canceled>(value),
    {
        received.unwrap()
    }

    /// Close the database connection.
    ///
    /// It consumes the `Connection`, but on error returns it to the caller for retry purposes.
    ///
    /// If successful, any following `close` operations performed on `Connection` copies will
    /// succeed immediately.
    ///
    /// On the other hand, any calls to [`Connection::call`] will return a
    /// [`Error::ConnectionClosed`].
    pub fn close(self) -> (attempt: (Self, Closing))
        ensures
            attempt.0 == self,
            self.handle().close_may_give(attempt.1),
        opens_invariants crate::footprint::numbers(crate::threaded::closings())
    {
        let closing = self.handle.close();
        (self, closing)
    }

    /// What [`Connection::close`] comes to, once the answer, if one was to come, has been
    /// awaited.
    ///
    /// # Failure
    ///
    /// Will return `Err` if the underlying SQLite close call fails.
    pub fn finish_close(
        self,
        answer: Option<Result<Result<(), rusqlite::Error>, oneshot::Canceled>>,
    ) -> (closed: Result<(), Error>)
        ensures
            closed == close_result(self, crate::threaded::close_answer(answer)),
        opens_invariants none
    {
        match Handle::finish_close(answer) {
            Ok(()) => Ok(()),
            Err(e) => Err(Error::Close((self, e))),
        }
    }
}

/// `std::fmt::Formatter::write_str` hands a text to whatever the formatter writes into. Whether
/// that takes the text is its own to decide, so nothing is claimed of the result.
#[verifier::external_body]
fn write_text(f: &mut std::fmt::Formatter<'_>, text: &str) -> (written: std::fmt::Result) {
    f.write_str(text)
}

/// `text` was written through the borrow `f`, and `written` says how that went.
pub closed spec fn wrote(
    f: &mut std::fmt::Formatter<'_>,
    text: &str,
    written: std::fmt::Result,
) -> bool {
    call_ensures(write_text, (f, text), written)
}

/// A text counts as written only through the formatter's own writing of it.
proof fn writing_is_the_call(
    f: &mut std::fmt::Formatter<'_>,
    text: &str,
    written: std::fmt::Result,
)
    requires
        wrote(f, text, written),
    ensures
        call_ensures(write_text, (f, text), written),
{
}

impl<H> std::fmt::Debug for Connection<H> {
    /// Writes the name of the type, and nothing of what is inside.
    fn fmt(&self, f: &mut std::fmt::Formatter<'_>) -> (written: std::fmt::Result)
        ensures
            exists|lent: &mut std::fmt::Formatter<'_>|
                *lent == *old(f) && *final(lent) == *final(f) && #[trigger] wrote(
                    lent,
                    "Connection",
                    written,
                ),
    {
        let written = write_text(f, "Connection");
        assert(forall|lent: &mut std::fmt::Formatter<'_>| #[trigger]
            call_ensures(write_text, (lent, "Connection"), written) ==> wrote(
                lent,
                "Connection",
                written,
            ));
        written
    }
}

impl<H: Share> Clone for Connection<H> {
    fn clone(&self) -> (copy: Self)
        ensures
            copy == *self,
    {
        Connection { handle: self.handle.another() }
    }
}

} // verus!
