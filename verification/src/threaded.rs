//! Connection owner backed by a dedicated background thread.
//!
//! This is the default backend, for every target whose operating system is known.
//!
//! A `rusqlite::Connection` can be sent to another thread but not shared between threads, and its
//! calls block the calling thread until SQLite returns. To keep the async executor free, this
//! backend moves the connection onto a thread of its own and serializes access by funneling every
//! request through an unbounded channel. The background thread owns the connection outright.
//!
//! The [`Handle`] is just the sending half of that channel, cheap to clone. What the background
//! thread does is here too, cut where it has to wait: [`Worker::open`] opens the connection and
//! reports how that went, and [`Server::serve`] takes what came out of the channel and says
//! whether to wait for more.

use crossbeam_channel::{Receiver, RecvError, Sender};
use futures_channel::oneshot;
use vstd::prelude::*;

use crate::call::{prepare, CallFn};
use crate::close::settle;
use crate::error::Closed;
use crate::open::OpenRequest;
use crate::owner::{Line, Owner, Share};
use crate::protocol::{Ending, Fate, Request};

verus! {

/// A message sent from a [`Handle`] to the connection's background thread.
pub enum Message {
    /// Run the boxed function against the connection.
    Execute(CallFn),
    /// Close the connection, reporting the result back through the channel.
    Close(oneshot::Sender<Result<(), rusqlite::Error>>),
}

/// The sending half of the channel to a connection's background thread.
///
/// Cloning a `Handle` yields another sender to the same thread; the thread (and the connection
/// it owns) lives until every `Handle` is dropped or the connection is explicitly closed.
pub struct Handle<S: Line = Sender<Message>> {
    sender: S,
}

impl<T> Share for Sender<T> {
    fn another(&self) -> (copy: Self) {
        self.clone()
    }
}

impl Line for Sender<Message> {
    closed spec fn is_unbounded(self) -> bool {
        comes_from_unbounded(self)
    }
}

impl<S: Line> Handle<S> {
    #[verifier::type_invariant]
    spec fn has_unbounded_channel(self) -> bool {
        self.sender.is_unbounded()
    }
}

/// An attempt to close that has been put to the background thread.
pub enum Closing {
    /// The thread is gone, so the connection has already been closed.
    Gone,
    /// The thread will answer here.
    Asked(oneshot::Receiver<Result<(), rusqlite::Error>>),
}

/// What a failed or successful send means: a message can be refused only because the thread is
/// gone, and with it the connection.
pub open spec fn accepted<E>(sent: Result<(), E>) -> Result<(), Closed> {
    match sent {
        Ok(()) => Ok(()),
        Err(_) => Err(Closed),
    }
}

/// The messages that ask for the connection to be closed.
pub open spec fn closings() -> Set<Message> {
    Set::new(|message: Message| message is Close)
}

/// What the awaited answer to an attempt to close means. There was none to wait for if the thread
/// was gone, so the connection had already been closed. That the answer never came likewise means
/// that the thread ended and the connection was closed in the meantime.
pub open spec fn close_answer(
    answer: Option<Result<Result<(), rusqlite::Error>, oneshot::Canceled>>,
) -> Result<(), rusqlite::Error> {
    match answer {
        Some(Ok(report)) => report,
        Some(Err(_)) => Ok(()),
        None => Ok(()),
    }
}

/// The channel of `sender` is an unbounded one, so that sending never blocks.
spec fn comes_from_unbounded(sender: Sender<Message>) -> bool {
    exists|receiver: Receiver<Message>|
        call_ensures(crossbeam_channel::unbounded::<Message>, (), (sender, receiver))
}

impl Handle {
    /// The sender of this handle.
    pub closed spec fn sender(self) -> Sender<Message> {
        self.sender
    }

    /// What this handle sends comes out of `receiver`.
    pub open spec fn feeds(self, receiver: Receiver<Message>) -> bool {
        call_ensures(crossbeam_channel::unbounded::<Message>, (), (self.sender(), receiver))
    }

    /// `sent` may be what comes of handing `message` to the channel.
    pub open spec fn send_may_give(
        self,
        message: Message,
        sent: Result<(), crossbeam_channel::SendError<Message>>,
    ) -> bool {
        call_ensures(Sender::<Message>::send, (&self.sender(), message), sent)
    }

    /// `closing` may be what comes of asking the thread to close the connection: the thread is
    /// handed the sender whose answer will come out of the receiver that is kept.
    pub open spec fn close_may_give(self, closing: Closing) -> bool {
        exists|
            reply: oneshot::Sender<Result<(), rusqlite::Error>>,
            answer: oneshot::Receiver<Result<(), rusqlite::Error>>,
            sent: Result<(), crossbeam_channel::SendError<Message>>,
        |
            {
                &&& #[trigger] call_ensures(
                    oneshot::channel::<Result<(), rusqlite::Error>>,
                    (),
                    (reply, answer),
                )
                &&& #[trigger] self.send_may_give(Message::Close(reply), sent)
                &&& closing == match sent {
                    Ok(()) => Closing::Asked(answer),
                    Err(_) => Closing::Gone,
                }
            }
    }

    /// A handle and what it feeds.
    fn open_channel() -> (halves: (Self, Receiver<Message>))
        ensures
            halves.0.feeds(halves.1),
        opens_invariants none
    {
        let (sender, receiver) = crossbeam_channel::unbounded::<Message>();
        assert(comes_from_unbounded(sender));
        (Handle { sender }, receiver)
    }

    /// Build a handle and the server of an already-open connection, to be run on a new thread.
    pub fn from_connection(conn: rusqlite::Connection) -> (served: (Self, Server))
        ensures
            served.1.conn == conn,
            served.0.feeds(served.1.receiver),
        opens_invariants none
    {
        let (handle, receiver) = Handle::open_channel();
        (handle, Server { conn, receiver })
    }

    /// Queue `function` to run on the background thread.
    ///
    /// Returns immediately; the function runs once the thread reaches it in the queue. Fails with
    /// [`Closed`] if the connection has already been closed.
    pub fn submit(&self, function: CallFn) -> (submitted: Result<(), Closed>)
        ensures
            exists|sent: Result<(), crossbeam_channel::SendError<Message>>| #[trigger]
                self.send_may_give(Message::Execute(function), sent) && submitted == accepted(sent),
        opens_invariants [crate::footprint::number(Message::Execute(function))]
    {
        proof {
            use_type_invariant(self);
        }
        let sent = self.sender.send(Message::Execute(function));
        assert(self.send_may_give(Message::Execute(function), sent));
        match sent {
            Ok(()) => Ok(()),
            Err(_) => Err(Closed),
        }
    }

    /// Ask the background thread to close the connection, consuming it there.
    ///
    /// If the channel is already closed then the connection was closed by a previous call
    /// (possibly through a clone of this handle), which counts as success. On a SQLite-level
    /// failure the connection is retained by the thread so a later retry can succeed.
    pub fn close(&self) -> (closing: Closing)
        ensures
            self.close_may_give(closing),
        opens_invariants crate::footprint::numbers(closings())
    {
        proof {
            use_type_invariant(self);
        }
        let (reply, answer) = oneshot::channel::<Result<(), rusqlite::Error>>();
        assert(call_ensures(
            oneshot::channel::<Result<(), rusqlite::Error>>,
            (),
            (reply, answer),
        ));
        let sent = self.sender.send(Message::Close(reply));
        assert(self.send_may_give(Message::Close(reply), sent));
        match sent {
            Ok(()) => Closing::Asked(answer),
            Err(_) => Closing::Gone,
        }
    }

    /// What an attempt to close comes to, once its answer, if one was to come, has been awaited.
    pub fn finish_close(
        answer: Option<Result<Result<(), rusqlite::Error>, oneshot::Canceled>>,
    ) -> (closed: Result<(), rusqlite::Error>)
        ensures
            closed == close_answer(answer),
        opens_invariants none
    {
        match answer {
            Some(Ok(report)) => report,
            _ => Ok(()),
        }
    }
}

impl<F, R> Owner<F, R> for Handle where
    F: FnOnce(&mut rusqlite::Connection) -> R + Send + 'static,
    R: Send + 'static,
 {
    type Packed = Message;

    open spec fn holds(function: F, packed: Message, receiver: oneshot::Receiver<R>) -> bool {
        packed matches Message::Execute(execute) && crate::call::packs(
            function,
            execute,
            receiver,
        )
    }

    open spec fn may_take(&self, packed: Message, submitted: Result<(), Closed>) -> bool {
        exists|sent: Result<(), crossbeam_channel::SendError<Message>>| #[trigger]
            self.send_may_give(packed, sent) && submitted == accepted(sent)
    }

    fn pack(function: F) -> (prepared: (Message, oneshot::Receiver<R>)) {
        let (packed, receiver) = prepare(function);
        (Message::Execute(packed), receiver)
    }

    fn put(&self, packed: Message) -> (submitted: Result<(), Closed>) {
        proof {
            use_type_invariant(self);
        }
        let sent = self.sender.send(packed);
        assert(self.send_may_give(packed, sent));
        match sent {
            Ok(()) => Ok(()),
            Err(_) => Err(Closed),
        }
    }
}

impl<S: Line> Share for Handle<S> {
    fn another(&self) -> (copy: Self) {
        proof {
            use_type_invariant(self);
        }
        let sender = self.sender.another();
        Handle { sender }
    }
}

impl<S: Line> Clone for Handle<S> {
    fn clone(&self) -> (copy: Self)
        ensures
            copy == *self,
    {
        self.another()
    }
}

/// A handle to a thread that has yet to open its connection. There is nothing to send so far, and
/// nothing can be sent: whoever takes the handle out cannot put it back.
pub struct Pending {
    handle: Handle,
}

impl Pending {
    /// The handle that this will be.
    pub closed spec fn handle(self) -> Handle {
        self.handle
    }

    /// The handle, now that the connection is open.
    pub fn ready(self) -> (handle: Handle)
        ensures
            handle == self.handle(),
        opens_invariants none
    {
        self.handle
    }
}

/// A background thread that is about to be spawned, from the two sides of it.
pub struct Starting {
    /// The handle to the thread, good once the connection is open.
    pub handle: Pending,
    /// Where the thread will say whether the connection is open.
    pub opened: oneshot::Receiver<Result<(), rusqlite::Error>>,
    /// What the thread has to do.
    pub worker: Worker,
}

impl Starting {
    /// The two sides belong together: the worker reports to `opened`, and serves `handle`.
    pub open spec fn connected(self) -> bool {
        &&& self.handle.handle().feeds(self.worker.receiver)
        &&& call_ensures(
            oneshot::channel::<Result<(), rusqlite::Error>>,
            (),
            (self.worker.reply, self.opened),
        )
    }
}

/// The background thread's part in opening a connection.
pub struct Worker {
    /// The database to open.
    pub request: OpenRequest,
    /// Where the requests for the connection will come from.
    pub receiver: Receiver<Message>,
    /// Where to report how the opening went.
    pub reply: oneshot::Sender<Result<(), rusqlite::Error>>,
}

/// Prepare a background thread that opens a connection and serves requests against it.
///
/// The connection is opened *on the spawned thread* so that a slow open never blocks the calling
/// task; the outcome of opening is reported back through a oneshot before the thread starts
/// serving.
pub fn start(request: OpenRequest) -> (starting: Starting)
    ensures
        starting.worker.request == request,
        starting.connected(),
    opens_invariants none
{
    let (handle, receiver) = Handle::open_channel();
    let (reply, opened) = oneshot::channel::<Result<(), rusqlite::Error>>();
    Starting { handle: Pending { handle }, opened, worker: Worker { request, receiver, reply } }
}

/// What the calling task is told of an opening.
pub open spec fn opening_report(
    opened: Result<rusqlite::Connection, rusqlite::Error>,
) -> Result<(), rusqlite::Error> {
    match opened {
        Ok(_) => Ok(()),
        Err(e) => Err(e),
    }
}

/// Parts what the calling task is told of an opening from the connection that was opened.
pub fn report_opening(opened: Result<rusqlite::Connection, rusqlite::Error>) -> (parted: (
    Result<(), rusqlite::Error>,
    Option<rusqlite::Connection>,
))
    ensures
        parted.0 == opening_report(opened),
        parted.1 == match opened {
            Ok(conn) => Some(conn),
            Err(_) => None,
        },
    opens_invariants none
{
    match opened {
        Ok(conn) => (Ok(()), Some(conn)),
        Err(e) => (Err(e), None),
    }
}

impl Worker {
    /// Open the connection and report the outcome.
    ///
    /// There is something to serve only if the connection is open and somebody still waits for
    /// it. A path or a VFS name that cannot be converted to a C-compatible string leaves nothing
    /// to serve.
    pub fn open(self) -> (serving: Option<Server>)
        ensures
            self.request.holds_nul() ==> serving is None,
            exists|
                opened: Result<rusqlite::Connection, rusqlite::Error>,
                sent: Result<(), Result<(), rusqlite::Error>>,
            |
                {
                    &&& #[trigger] self.request.may_give(opened)
                    &&& #[trigger] call_ensures(
                        oneshot::Sender::<Result<(), rusqlite::Error>>::send,
                        (self.reply, opening_report(opened)),
                        sent,
                    )
                    &&& serving == match (opened, sent) {
                        (Ok(conn), Ok(())) => Some(Server { conn, receiver: self.receiver }),
                        _ => None,
                    }
                },
        opens_invariants [crate::footprint::number(self.request)]
    {
        let opened = self.request.open();
        let (report, conn) = report_opening(opened);
        let sent = self.reply.send(report);
        assert(call_ensures(
            oneshot::Sender::<Result<(), rusqlite::Error>>::send,
            (self.reply, opening_report(opened)),
            sent,
        ));
        match (conn, sent) {
            (Some(conn), Ok(())) => Some(Server { conn, receiver: self.receiver }),
            _ => None,
        }
    }
}

/// The background thread's part in serving an open connection.
pub struct Server {
    /// The connection, owned outright.
    pub conn: rusqlite::Connection,
    /// Where the requests come from.
    pub receiver: Receiver<Message>,
}

/// What became of one message.
pub enum Served {
    /// The connection is open: wait for the next message.
    Running(Server),
    /// The connection is closed, or nobody is left to send a message: the thread ends.
    Stopped,
    /// The connection is closed, so the thread ends, but the report found nobody waiting for it.
    Unheard,
}

impl Served {
    /// What the thread holds after the message.
    pub open spec fn held(self) -> Option<rusqlite::Connection> {
        match self {
            Served::Running(server) => Some(server.conn),
            _ => None,
        }
    }
}

/// What an attempt to close leads to, given whether its answer found the caller waiting. A
/// connection that SQLite refused to close is served on, whether or not anybody heard of it.
pub open spec fn after_close(
    closed: Result<(), (rusqlite::Connection, rusqlite::Error)>,
    answered: Result<(), Result<(), rusqlite::Error>>,
    receiver: Receiver<Message>,
) -> Served {
    match crate::close::kept_after(closed) {
        Some(conn) => Served::Running(Server { conn, receiver }),
        None => match answered {
            Ok(()) => Served::Stopped,
            Err(_) => Served::Unheard,
        },
    }
}

/// Dropping the `crossbeam_channel::Receiver`, of which there is only one, disconnects the
/// channel: what is queued is dropped, and whatever is sent from then on is refused. There is no
/// result to claim anything of.
#[verifier::external_body]
fn disconnect(receiver: Receiver<Message>) {
    drop(receiver)
}

/// The channel of `receiver` has been disconnected.
pub closed spec fn hung_up(receiver: Receiver<Message>) -> bool {
    call_ensures(disconnect, (receiver,), ())
}

/// The thread of a closed connection, which has given up its channel and still owes its report.
///
/// Such a value exists only once the channel is gone.
struct Ended {
    receiver: Ghost<Receiver<Message>>,
    reply: oneshot::Sender<Result<(), rusqlite::Error>>,
}

impl Ended {
    #[verifier::type_invariant]
    spec fn has_hung_up(self) -> bool {
        hung_up(self.receiver@)
    }

    /// Give up the channel.
    fn hang_up(
        receiver: Receiver<Message>,
        reply: oneshot::Sender<Result<(), rusqlite::Error>>,
    ) -> (ended: Self)
        ensures
            ended.receiver@ == receiver,
            ended.reply == reply,
            hung_up(receiver),
    {
        let ghost given_up = receiver;
        disconnect(receiver);
        Ended { receiver: Ghost(given_up), reply }
    }

    /// Report that the connection is closed.
    fn report(self) -> (answered: Result<(), Result<(), rusqlite::Error>>)
        ensures
            call_ensures(
                oneshot::Sender::<Result<(), rusqlite::Error>>::send,
                (self.reply, Ok(())),
                answered,
            ),
    {
        self.reply.send(Ok(()))
    }
}

/// `answered` is what came of sending the report of a successful close through `reply`, at a time
/// when the channel of `receiver` had been given up.
pub closed spec fn reported_after_hang_up(
    receiver: Receiver<Message>,
    reply: oneshot::Sender<Result<(), rusqlite::Error>>,
    answered: Result<(), Result<(), rusqlite::Error>>,
) -> bool {
    exists|ended: Ended|
        {
            &&& ended.receiver@ == receiver
            &&& ended.reply == reply
            &&& #[trigger] call_ensures(Ended::report, (ended,), answered)
        }
}

/// A channel counts as disconnected only through the dropping of its receiver, and a report counts
/// as sent afterwards only if it was sent by a thread that had dropped it.
proof fn hanging_up_comes_first(
    receiver: Receiver<Message>,
    reply: oneshot::Sender<Result<(), rusqlite::Error>>,
    answered: Result<(), Result<(), rusqlite::Error>>,
)
    ensures
        hung_up(receiver) ==> call_ensures(disconnect, (receiver,), ()),
        reported_after_hang_up(receiver, reply, answered) ==> exists|ended: Ended|
            {
                &&& ended.receiver@ == receiver
                &&& ended.reply == reply
                &&& #[trigger] call_ensures(Ended::report, (ended,), answered)
            },
        forall|ended: Ended| #[trigger]
            ended.has_hung_up() ==> call_ensures(disconnect, (ended.receiver@,), ()),
{
}

impl Server {
    /// Serve what came out of the channel.
    ///
    /// The thread goes on until every [`Handle`] is dropped or the connection is successfully
    /// closed. Before it reports a successful close it gives up the channel, so that whoever has
    /// heard of the close finds the channel closed.
    pub fn serve(self, received: Result<Message, RecvError>) -> (served: Served)
        ensures
            match received {
                Err(_) => served is Stopped,
                Ok(Message::Execute(function)) => {
                    &&& served matches Served::Running(next)
                    &&& next.receiver == self.receiver
                    &&& crate::protocol::thread_step(
                        Some(self.conn),
                        Request::Call(function),
                        served.held(),
                        Ending::Call(Fate::Answered(())),
                    )
                    &&& exists|lent: &mut rusqlite::Connection|
                        *lent == self.conn && *final(lent) == next.conn && #[trigger] function.ran(
                            lent,
                        )
                },
                Ok(Message::Close(reply)) => exists|
                    closed: Result<(), (rusqlite::Connection, rusqlite::Error)>,
                    answered: Result<(), Result<(), rusqlite::Error>>,
                |
                    {
                        &&& #[trigger] crate::close::close_may_give(self.conn, closed)
                        &&& #[trigger] call_ensures(
                            oneshot::Sender::<Result<(), rusqlite::Error>>::send,
                            (reply, crate::close::report_of(closed)),
                            answered,
                        )
                        &&& served == after_close(closed, answered, self.receiver)
                        &&& closed is Ok ==> hung_up(self.receiver) && reported_after_hang_up(
                            self.receiver,
                            reply,
                            answered,
                        )
                        &&& crate::protocol::thread_step(
                            Some(self.conn),
                            Request::Close,
                            served.held(),
                            Ending::Close(Fate::Answered(crate::close::report_of(closed))),
                        )
                    },
            },
    {
        let Server { conn, receiver } = self;
        match received {
            Err(_) => Served::Stopped,
            Ok(Message::Execute(function)) => {
                let mut conn = conn;
                function.run(&mut conn);
                Served::Running(Server { conn, receiver })
            },
            Ok(Message::Close(reply)) => {
                let closed = conn.close();
                proof {
                    let before = Some(conn);
                    assert(crate::close::close_may_give(before->Some_0, closed));
                }
                let (report, kept) = settle(closed);
                match kept {
                    Some(conn) => {
                        // Nobody may be waiting for the report any more, which is no failure.
                        let answered = reply.send(report);
                        assert(call_ensures(
                            oneshot::Sender::<Result<(), rusqlite::Error>>::send,
                            (reply, crate::close::report_of(closed)),
                            answered,
                        ));
                        Served::Running(Server { conn, receiver })
                    },
                    None => {
                        let ended = Ended::hang_up(receiver, reply);
                        let answered = ended.report();
                        assert(call_ensures(Ended::report, (ended,), answered));
                        assert(call_ensures(
                            oneshot::Sender::<Result<(), rusqlite::Error>>::send,
                            (reply, crate::close::report_of(closed)),
                            answered,
                        ));
                        match answered {
                            Ok(()) => Served::Stopped,
                            Err(_) => Served::Unheard,
                        }
                    },
                }
            },
        }
    }
}

} // verus!
