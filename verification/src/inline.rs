//! Connection owner that runs every call inline on the current thread.
//!
//! This backend is for targets whose operating system is unknown, most notably
//! `wasm32-unknown-unknown`, where threads cannot be spawned. Instead of moving the connection
//! onto a background thread, it keeps the connection in an `Option` and runs each submitted
//! function synchronously. The `Option` lets [`Handle::close`] consume the connection.
//!
//! A handle is borrowed mutably for as long as a function runs, so access to the connection is
//! serialized. Where several owners share a handle, they put it behind a cell of their own.

use futures_channel::oneshot;
use vstd::prelude::*;

use crate::call::{await_submitted, prepare, CallFn};
use crate::close::settle;
use crate::error::{Closed, Error};

verus! {

/// Owner of an in-process connection.
///
/// The connection lives until the handle is dropped or it is explicitly closed.
pub struct Handle {
    conn: Option<rusqlite::Connection>,
}

impl View for Handle {
    type V = Option<rusqlite::Connection>;

    /// The open connection, or `None` once it is closed.
    closed spec fn view(&self) -> Option<rusqlite::Connection> {
        self.conn
    }
}

impl Handle {
    /// Wrap an already-open connection in a handle.
    pub fn from_connection(conn: rusqlite::Connection) -> (handle: Self)
        ensures
            handle@ == Some(conn),
    {
        Handle { conn: Some(conn) }
    }

    /// Run `function` against the connection immediately.
    ///
    /// Unlike the threaded backend, the function has already finished by the time this returns.
    /// Fails with [`Closed`] if the connection has already been closed.
    pub fn submit(&mut self, function: CallFn) -> (submitted: Result<(), Closed>)
        ensures
            crate::protocol::call_step(old(self)@, function, final(self)@, submitted),
            old(self)@ matches Some(before) ==> exists|lent: &mut rusqlite::Connection|
                *lent == before && Some(*final(lent)) == final(self)@ && #[trigger] function.ran(
                    lent,
                ),
    {
        match &mut self.conn {
            Some(conn) => {
                function.run(conn);
                Ok(())
            },
            None => Err(Closed),
        }
    }

    /// Call a function, which has finished by the time this returns.
    ///
    /// # Failure
    ///
    /// Will return `Err` if the database connection has been closed.
    pub fn call<F, R, E>(&mut self, function: F) -> (waiting: Result<
        oneshot::Receiver<Result<R, E>>,
        Error<E>,
    >) where
        F: FnOnce(&mut rusqlite::Connection) -> Result<R, E> + 'static + Send,
        R: Send + 'static,
        E: Send + 'static,

        requires
            forall|conn: &mut rusqlite::Connection| call_requires(function, (conn,)),
        ensures
            exists|
                packed: CallFn,
                receiver: oneshot::Receiver<Result<R, E>>,
                submitted: Result<(), Closed>,
            |
                {
                    &&& #[trigger] crate::call::packs(function, packed, receiver)
                    &&& #[trigger] crate::protocol::call_step(
                        old(self)@,
                        packed,
                        final(self)@,
                        submitted,
                    )
                    &&& old(self)@ is Some ==> exists|lent: &mut rusqlite::Connection|
                        Some(*lent) == old(self)@ && Some(*final(lent)) == final(self)@
                            && #[trigger] packed.ran(lent)
                    &&& waiting == crate::call::pending::<Result<R, E>, E>(submitted, receiver)
                },
    {
        match self.call_raw(function) {
            Ok(receiver) => Ok(receiver),
            Err(_) => Err(Error::ConnectionClosed),
        }
    }

    /// Call a function, which has finished by the time this returns.
    ///
    /// # Failure
    ///
    /// Will return `Err` if the database connection has been closed.
    pub fn call_raw<F, R>(&mut self, function: F) -> (waiting: Result<
        oneshot::Receiver<R>,
        Error,
    >) where F: FnOnce(&mut rusqlite::Connection) -> R + 'static + Send, R: Send + 'static
        requires
            forall|conn: &mut rusqlite::Connection| call_requires(function, (conn,)),
        ensures
            exists|
                packed: CallFn,
                receiver: oneshot::Receiver<R>,
                submitted: Result<(), Closed>,
            |
                {
                    &&& #[trigger] crate::call::packs(function, packed, receiver)
                    &&& #[trigger] crate::protocol::call_step(
                        old(self)@,
                        packed,
                        final(self)@,
                        submitted,
                    )
                    &&& old(self)@ is Some ==> exists|lent: &mut rusqlite::Connection|
                        Some(*lent) == old(self)@ && Some(*final(lent)) == final(self)@
                            && #[trigger] packed.ran(lent)
                    &&& waiting == crate::call::pending::<R, rusqlite::Error>(submitted, receiver)
                },
    {
        let (packed, receiver) = prepare(function);
        let submitted = self.submit(packed);
        await_submitted(submitted, receiver)
    }

    /// Call a function, which has finished by the time this returns.
    ///
    /// This is for a connection that is never explicitly closed: the caller takes [`Closed`] for
    /// a bug of its own.
    pub fn call_unwrap<F, R>(&mut self, function: F) -> (waiting: Result<
        oneshot::Receiver<R>,
        Closed,
    >) where F: FnOnce(&mut rusqlite::Connection) -> R + Send + 'static, R: Send + 'static
        requires
            forall|conn: &mut rusqlite::Connection| call_requires(function, (conn,)),
        ensures
            exists|
                packed: CallFn,
                receiver: oneshot::Receiver<R>,
                submitted: Result<(), Closed>,
            |
                {
                    &&& #[trigger] crate::call::packs(function, packed, receiver)
                    &&& #[trigger] crate::protocol::call_step(
                        old(self)@,
                        packed,
                        final(self)@,
                        submitted,
                    )
                    &&& old(self)@ is Some ==> exists|lent: &mut rusqlite::Connection|
                        Some(*lent) == old(self)@ && Some(*final(lent)) == final(self)@
                            && #[trigger] packed.ran(lent)
                    &&& waiting == match submitted {
                        Ok(()) => Ok(receiver),
                        Err(closed) => Err(closed),
                    }
                },
    {
        let (packed, receiver) = prepare(function);
        match self.submit(packed) {
            Ok(()) => Ok(receiver),
            Err(closed) => Err(closed),
        }
    }

    /// Close the connection, consuming it.
    ///
    /// Closing an already-closed connection reports success. On a SQLite-level failure the
    /// connection is put back so that a later retry can succeed, and the error is returned.
    pub fn close(&mut self) -> (closed: Result<(), rusqlite::Error>)
        ensures
            crate::protocol::close_step(old(self)@, final(self)@, closed),
    {
        match self.conn.take() {
            None => Ok(()),
            Some(conn) => {
                let answer = conn.close();
                assert(crate::close::close_may_give(conn, answer));
                let (report, kept) = settle(answer);
                self.conn = kept;
                report
            },
        }
    }
}

/// Open a connection with `open` and wrap it in a [`Handle`].
///
/// The connection is opened synchronously on the current thread. Returns the error from `open`
/// if it fails.
pub fn start<F>(open: F) -> (started: Result<Handle, rusqlite::Error>) where
    F: FnOnce() -> Result<rusqlite::Connection, rusqlite::Error>,

    requires
        call_requires(open, ()),
    ensures
        exists|opened: Result<rusqlite::Connection, rusqlite::Error>|
            {
                &&& #[trigger] call_ensures(open, (), opened)
                &&& match opened {
                    Ok(conn) => started matches Ok(handle) && handle@ == Some(conn),
                    Err(e) => started matches Err(failed) && failed == e,
                }
            },
{
    match open() {
        Ok(conn) => Ok(Handle::from_connection(conn)),
        Err(e) => Err(e),
    }
}

} // verus!
