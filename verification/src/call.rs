//! Functions packed up to be run against a connection later on.

use futures_channel::oneshot;
use vstd::prelude::*;

use crate::error::{Closed, Error};

verus! {

/// `function` was run with `conn` borrowed, and the value that it gave was sent through `reply`.
///
/// Both calls are pinned down by their own specifications: the value is one that `function` may
/// give for this borrow, and it is this value that is sent.
pub open spec fn ran_and_replied<F, R>(
    function: F,
    reply: oneshot::Sender<R>,
    conn: &mut rusqlite::Connection,
) -> bool where F: FnOnce(&mut rusqlite::Connection) -> R {
    exists|value: R, sent: Result<(), R>|
        {
            &&& #[trigger] call_ensures(function, (conn,), value)
            &&& #[trigger] call_ensures(oneshot::Sender::<R>::send, (reply, value), sent)
        }
}

/// What can be run once against a borrowed connection.
trait Call: Send {
    /// `conn` may be the borrow that this was run with, from the connection as it was lent to the
    /// connection as it was left.
    spec fn ran(&self, conn: &mut rusqlite::Connection) -> bool;

    /// Runs this against `conn`.
    fn run(self: Box<Self>, conn: &mut rusqlite::Connection)
        ensures
            exists|lent: &mut rusqlite::Connection|
                *lent == *old(conn) && *final(lent) == *final(conn) && #[trigger] self.ran(lent),
    ;
}

/// A function together with the sender that its value goes to.
#[verifier::reject_recursive_types(R)]
struct Job<F: FnOnce(&mut rusqlite::Connection) -> R, R> {
    function: F,
    reply: oneshot::Sender<R>,
}

impl<F: FnOnce(&mut rusqlite::Connection) -> R, R> Job<F, R> {
    #[verifier::type_invariant]
    spec fn callable(self) -> bool {
        forall|conn: &mut rusqlite::Connection| call_requires(self.function, (conn,))
    }
}

impl<F, R> Call for Job<F, R> where F: FnOnce(&mut rusqlite::Connection) -> R + Send, R: Send {
    spec fn ran(&self, conn: &mut rusqlite::Connection) -> bool {
        ran_and_replied(self.function, self.reply, conn)
    }

    fn run(self: Box<Self>, conn: &mut rusqlite::Connection) {
        let job = *self;
        proof {
            use_type_invariant(&job);
        }
        let function = job.function;
        let value = function(conn);
        // Nobody may be waiting for the value any more, which is no failure.
        let sent = job.reply.send(value);
        assert forall|lent: &mut rusqlite::Connection| #[trigger]
            call_ensures(function, (lent,), value) implies job.ran(lent) by {
            assert(call_ensures(oneshot::Sender::<R>::send, (job.reply, value), sent));
        }
    }
}

/// A boxed function to be run against the connection.
///
/// Each backend runs these against its connection in submission order.
pub struct CallFn {
    call: Box<dyn Call>,
}

impl CallFn {
    /// `conn` may be the borrow that this was run with, from the connection as it was lent to the
    /// connection as it was left.
    pub closed spec fn ran(self, conn: &mut rusqlite::Connection) -> bool {
        self.call.ran(conn)
    }

    /// This was run on `conn`: that is the connection as it was lent.
    pub open spec fn ran_on(self, conn: rusqlite::Connection) -> bool {
        exists|lent: &mut rusqlite::Connection| *lent == conn && #[trigger] self.ran(lent)
    }

    /// Packs up `function` so that running it sends its value through `reply`.
    pub fn new<F, R>(function: F, reply: oneshot::Sender<R>) -> (packed: Self) where
        F: FnOnce(&mut rusqlite::Connection) -> R + Send + 'static,
        R: Send + 'static,

        requires
            forall|conn: &mut rusqlite::Connection| call_requires(function, (conn,)),
        ensures
            forall|conn: &mut rusqlite::Connection| #[trigger]
                packed.ran(conn) == ran_and_replied(function, reply, conn),
    {
        CallFn { call: Box::new(Job { function, reply }) }
    }

    /// Runs the packed function against `conn`.
    pub fn run(self, conn: &mut rusqlite::Connection)
        ensures
            exists|lent: &mut rusqlite::Connection|
                *lent == *old(conn) && *final(lent) == *final(conn) && #[trigger] self.ran(lent),
    {
        self.call.run(conn);
        assert(forall|lent: &mut rusqlite::Connection| #[trigger]
            self.call.ran(lent) ==> self.ran(lent));
    }
}

/// Running `packed` runs `function` and sends its value to `receiver`.
pub open spec fn packs<F, R>(
    function: F,
    packed: CallFn,
    receiver: oneshot::Receiver<R>,
) -> bool where F: FnOnce(&mut rusqlite::Connection) -> R {
    exists|reply: oneshot::Sender<R>|
        {
            &&& #[trigger] call_ensures(oneshot::channel::<R>, (), (reply, receiver))
            &&& forall|conn: &mut rusqlite::Connection| #[trigger]
                packed.ran(conn) == ran_and_replied(function, reply, conn)
        }
}

/// Packs up `function` and keeps the receiver that its value will come out of.
pub fn prepare<F, R>(function: F) -> (prepared: (CallFn, oneshot::Receiver<R>)) where
    F: FnOnce(&mut rusqlite::Connection) -> R + Send + 'static,
    R: Send + 'static,

    requires
        forall|conn: &mut rusqlite::Connection| call_requires(function, (conn,)),
    ensures
        packs(function, prepared.0, prepared.1),
{
    let (reply, receiver) = oneshot::channel::<R>();
    let packed = CallFn::new(function, reply);
    (packed, receiver)
}

/// What is left to wait for after a function was submitted.
pub open spec fn pending<R, E>(
    submitted: Result<(), Closed>,
    receiver: oneshot::Receiver<R>,
) -> Result<oneshot::Receiver<R>, Error<E>> {
    match submitted {
        Ok(()) => Ok(receiver),
        Err(_) => Err(Error::ConnectionClosed),
    }
}

/// What a call that was waited for comes to: the value of the function, or, if the value never
/// came, the error that the connection is closed.
pub open spec fn raw_result<R>(received: Result<R, oneshot::Canceled>) -> Result<R, Error> {
    match received {
        Ok(value) => Ok(value),
        Err(_) => Err(Error::ConnectionClosed),
    }
}

/// Brings the error of the function and the error of the call together.
pub open spec fn flattened<R, E>(raw: Result<Result<R, E>, Error>) -> Result<R, Error<E>> {
    match raw {
        Err(_) => Err(Error::ConnectionClosed),
        Ok(Ok(value)) => Ok(value),
        Ok(Err(e)) => Err(Error::Error(e)),
    }
}

/// What a call of a function that can fail comes to: the value of the function, the error of the
/// function, or, if neither came, the error that the connection is closed.
pub open spec fn call_result<R, E>(received: Result<Result<R, E>, oneshot::Canceled>) -> Result<
    R,
    Error<E>,
> {
    match received {
        Ok(Ok(value)) => Ok(value),
        Ok(Err(e)) => Err(Error::Error(e)),
        Err(_) => Err(Error::ConnectionClosed),
    }
}

/// The receiver to wait for, if the function was accepted.
pub fn await_submitted<R>(
    submitted: Result<(), Closed>,
    receiver: oneshot::Receiver<R>,
) -> (waiting: Result<oneshot::Receiver<R>, Error>)
    ensures
        waiting == pending::<R, rusqlite::Error>(submitted, receiver),
    opens_invariants none
{
    match submitted {
        Ok(()) => Ok(receiver),
        Err(_) => Err(Error::ConnectionClosed),
    }
}

/// Brings the error of the function and the error of the call together.
pub fn flatten<R, E>(raw: Result<Result<R, E>, Error>) -> (result: Result<R, Error<E>>)
    ensures
        result == flattened(raw),
    opens_invariants none
{
    match raw {
        Err(_) => Err(Error::ConnectionClosed),
        Ok(Ok(value)) => Ok(value),
        Ok(Err(e)) => Err(Error::Error(e)),
    }
}

} // verus!
