//! What holds of every connection, whatever is asked of it.

use crossbeam_channel::{Receiver, SendError, Sender};
use futures_channel::oneshot;
use std::fmt::Display;
use vstd::prelude::*;

use crate::call::CallFn;
use crate::connection::Connection;
use crate::error::{Closed, Error};
use crate::open::OpenRequest;
use crate::owner::Owner;
use crate::protocol::{Answer, Ending, History, Request, ThreadHistory};
use crate::threaded::{Closing, Handle, Message, Served, Server, Starting};

verus! {

/// Once closed, a connection stays closed: every later call is refused, and every later attempt
/// to close it succeeds.
pub proof fn closed_for_good(history: History, closed_at: int)
    requires
        history.valid(),
        0 <= closed_at <= history.requests.len(),
        history.states[closed_at] is None,
    ensures
        forall|i: int|
            closed_at <= i <= history.requests.len() ==> #[trigger] history.states[i] is None,
        forall|i: int|
            #![trigger history.answers[i]]
            closed_at <= i < history.requests.len() ==> match history.requests[i] {
                Request::Call(_) => history.answers[i] matches Answer::Call(submitted)
                    && submitted is Err,
                Request::Close => history.reports_closed(i),
            },
    decreases history.requests.len() - closed_at,
{
    if closed_at < history.requests.len() {
        let request = history.requests[closed_at];
        closed_for_good(history, closed_at + 1);
    }
}

/// A connection that was open is open for as long as no attempt to close it has succeeded, and
/// no longer.
pub proof fn open_until_closed(history: History, now: int)
    requires
        history.valid(),
        history.states[0] is Some,
        0 <= now <= history.requests.len(),
    ensures
        history.states[now] is Some <==> (forall|i: int|
            0 <= i < now ==> !#[trigger] history.reports_closed(i)),
    decreases now,
{
    if now > 0 {
        let last = now - 1;
        let request = history.requests[last];
        open_until_closed(history, last);
        if history.states[last] is Some {
            assert(history.states[now] is Some <==> !history.reports_closed(last));
        }
    }
}

/// A call is refused only after an attempt to close has succeeded, and always then.
pub proof fn refused_only_when_closed(history: History, now: int)
    requires
        history.valid(),
        history.states[0] is Some,
        0 <= now < history.requests.len(),
        history.requests[now] is Call,
    ensures
        history.answers[now] matches Answer::Call(submitted) && (submitted is Err <==> (exists|
            i: int,
        |
            0 <= i < now && #[trigger] history.reports_closed(i))),
{
    open_until_closed(history, now);
}

/// An attempt to close that fails keeps the connection that SQLite hands back, so that closing
/// can be tried again.
pub proof fn failed_close_keeps_the_connection(history: History, now: int)
    requires
        history.valid(),
        0 <= now < history.requests.len(),
        history.requests[now] is Close,
        !history.reports_closed(now),
    ensures
        history.answers[now] matches Answer::Close(Err(e)) && history.states[now] matches Some(
            before,
        ) && history.states[now + 1] matches Some(after) && crate::close::close_may_give(
            before,
            Err((after, e)),
        ),
{
}

/// The functions that are run are those that were submitted before the connection was closed, in
/// the order in which they were submitted, each of them once. Each is run on the connection that
/// the request before it left.
pub proof fn runs_in_submission_order(history: History, open_for: int)
    requires
        history.valid(),
        0 <= open_for <= history.requests.len(),
        forall|i: int| 0 <= i < open_for ==> #[trigger] history.states[i] is Some,
        open_for < history.requests.len() ==> history.states[open_for] is None,
    ensures
        crate::protocol::functions_run(history.requests, history.answers)
            == crate::protocol::functions(history.requests.take(open_for)),
        forall|i: int| #![trigger history.requests[i]]
            0 <= i < open_for ==> (history.requests[i] matches Request::Call(function)
                ==> history.states[i] matches Some(conn) && function.ran_on(conn)),
    decreases history.requests.len(),
{
    let count = history.requests.len();
    if count > 0 {
        let request = history.requests[count - 1];
        let earlier = History {
            requests: history.requests.drop_last(),
            answers: history.answers.drop_last(),
            states: history.states.drop_last(),
        };
        assert(earlier.valid()) by {
            assert forall|i: int| #![trigger earlier.requests[i]] 0 <= i < earlier.requests.len()
                implies crate::protocol::step(
                earlier.states[i],
                earlier.requests[i],
                earlier.states[i + 1],
                earlier.answers[i],
            ) by {
                assert(earlier.requests[i] == history.requests[i]);
            }
        }
        if open_for == count {
            assert(history.requests.take(open_for) =~= history.requests);
            runs_in_submission_order(earlier, count - 1);
            assert(earlier.requests.take(count - 1) =~= history.requests.drop_last());
        } else {
            closed_for_good(history, open_for);
            let answer = history.answers[count - 1];
            runs_in_submission_order(earlier, open_for);
            assert(earlier.requests.take(open_for) =~= history.requests.take(open_for));
        }
    }
}

/// The two backends agree: what the callers of a background thread see is what the inline
/// backend may answer to the same requests. So whatever holds of every history holds of both.
pub proof fn backends_agree(thread: ThreadHistory)
    requires
        thread.valid(),
    ensures
        thread.as_seen().valid(),
{
    let history = thread.as_seen();
    assert forall|i: int| #![trigger history.requests[i]] 0 <= i < history.requests.len() implies
        crate::protocol::step(
        history.states[i],
        history.requests[i],
        history.states[i + 1],
        history.answers[i],
    ) by {
        let request = thread.requests[i];
    }
}

/// After a successful close through any handle, every call returns
/// [`Error::ConnectionClosed`], and every other close succeeds at once, whether the channel
/// refuses the message or takes it and drops it.
pub proof fn closed_thread_answers(thread: ThreadHistory, closed_at: int, now: int)
    requires
        thread.valid(),
        0 <= closed_at < now < thread.requests.len(),
        thread.as_seen().reports_closed(closed_at),
    ensures
        match thread.endings[now] {
            Ending::Call(fate) => crate::protocol::call_outcome(fate) == Err::<(), Error>(
                Error::ConnectionClosed,
            ),
            Ending::Close(fate) => crate::protocol::close_outcome(fate) is Ok,
        },
        thread.requests[now] is Call <==> thread.endings[now] is Call,
{
    let history = thread.as_seen();
    backends_agree(thread);
    let closing = history.requests[closed_at];
    closed_for_good(history, closed_at + 1);
    let request = thread.requests[now];
    let answer = history.answers[now];
}

/// What a caller gets back from `call_raw` and `call` is the value of the function if the thread
/// answered, and otherwise [`Error::ConnectionClosed`], whether the message was refused or left
/// unanswered.
pub proof fn calls_come_to_their_fate<R, E>(
    submitted: Result<(), Closed>,
    receiver: oneshot::Receiver<Result<R, E>>,
    received: Result<Result<R, E>, oneshot::Canceled>,
)
    ensures
        (match crate::call::pending::<Result<R, E>, rusqlite::Error>(submitted, receiver) {
            Ok(_) => crate::call::raw_result(received),
            Err(e) => Err(e),
        }) == crate::protocol::call_outcome(crate::protocol::call_fate(submitted, received)),
        (match crate::call::pending::<Result<R, E>, E>(submitted, receiver) {
            Ok(_) => crate::call::call_result(received),
            Err(e) => Err(e),
        }) == crate::call::flattened(
            crate::protocol::call_outcome(crate::protocol::call_fate(submitted, received)),
        ),
{
}

/// What a caller gets back from `close` is SQLite's report if the thread answered, and otherwise
/// success: the connection had been closed before.
pub proof fn closes_come_to_their_fate(
    conn: Connection,
    answer: Option<Result<Result<(), rusqlite::Error>, oneshot::Canceled>>,
)
    ensures
        crate::connection::close_result(conn, crate::threaded::close_answer(answer))
            == crate::connection::close_result(
            conn,
            crate::protocol::close_outcome(crate::protocol::close_fate(answer)),
        ),
{
}

/// Running a packed function answers its caller: what the function gave is sent to the receiver
/// that the caller waits on, and what the caller gets back is that value.
pub proof fn running_answers_the_caller<F, R>(
    function: F,
    packed: CallFn,
    receiver: oneshot::Receiver<R>,
    conn: &mut rusqlite::Connection,
) where F: FnOnce(&mut rusqlite::Connection) -> R
    requires
        crate::call::packs(function, packed, receiver),
        packed.ran(conn),
    ensures
        exists|reply: oneshot::Sender<R>, value: R, sent: Result<(), R>|
            {
                &&& #[trigger] call_ensures(oneshot::channel::<R>, (), (reply, receiver))
                &&& #[trigger] call_ensures(function, (conn,), value)
                &&& #[trigger] call_ensures(oneshot::Sender::<R>::send, (reply, value), sent)
                &&& crate::call::raw_result(Ok(value)) == Ok::<R, Error>(value)
            },
{
}

/// A failed close hands the caller the connection that it was tried on, together with SQLite's
/// error.
pub proof fn failed_close_returns_the_connection(
    conn: Connection,
    closed: Result<(), (rusqlite::Connection, rusqlite::Error)>,
)
    requires
        closed is Err,
    ensures
        crate::connection::close_result(
            conn,
            crate::threaded::close_answer(Some(Ok(crate::close::report_of(closed)))),
        ) == Err::<(), Error>(Error::Close((conn, closed->Err_0.1))),
{
}

/// A failed close leaves the thread serving the connection that SQLite handed back, so that
/// closing can be tried again, whether or not anybody heard of the failure.
pub proof fn failed_close_is_served_on(
    closed: Result<(), (rusqlite::Connection, rusqlite::Error)>,
    answered: Result<(), Result<(), rusqlite::Error>>,
    receiver: Receiver<Message>,
)
    requires
        closed is Err,
    ensures
        crate::threaded::after_close(closed, answered, receiver) == Served::Running(
            Server { conn: closed->Err_0.0, receiver },
        ),
{
}

/// `call` is `call_raw` with the error of the function and the error of the call brought
/// together.
pub proof fn call_is_flattened_call_raw<R, E>(received: Result<Result<R, E>, oneshot::Canceled>)
    ensures
        crate::call::call_result(received) == crate::call::flattened(
            crate::call::raw_result(received),
        ),
{
}

/// An opening that succeeds gives a connection, and one that fails gives SQLite's error.
pub proof fn opening_is_reported(
    handle: Handle,
    opened: Result<rusqlite::Connection, rusqlite::Error>,
)
    ensures
        match (
            opened,
            crate::connection::open_result(handle, crate::threaded::opening_report(opened)),
        ) {
            (Ok(_), Ok(given)) => given == handle,
            (Err(e), Err(failed)) => failed == e,
            _ => false,
        },
        crate::connection::open_result(handle, Ok(())) == Ok::<_, rusqlite::Error>(handle),
{
}

/// A path or a VFS name that cannot be converted to a C-compatible string makes the opening fail.
pub proof fn nul_fails_the_opening(
    handle: Handle,
    request: OpenRequest,
    opened: Result<rusqlite::Connection, rusqlite::Error>,
)
    requires
        request.holds_nul(),
        request.may_give(opened),
    ensures
        crate::connection::open_result(handle, crate::threaded::opening_report(opened)) is Err,
{
    request.nul_gives_an_error(opened);
}

/// Functions that are run one after another compose: whatever is looked at in the connection,
/// each function finds it as the function before it left it, and no change is lost.
///
/// Function `i` is run with the borrow `lent[i]`, from `states[i]` to `states[i + 1]`, and
/// `acts[i]` is what it does to what is looked at, whatever connection it is lent.
pub proof fn functions_compose<T>(
    functions: Seq<CallFn>,
    lent: Seq<&mut rusqlite::Connection>,
    states: Seq<rusqlite::Connection>,
    observed: spec_fn(rusqlite::Connection) -> T,
    acts: Seq<spec_fn(T) -> T>,
)
    requires
        lent.len() == functions.len(),
        acts.len() == functions.len(),
        states.len() == functions.len() + 1,
        forall|i: int|
            #![trigger functions[i]]
            #![trigger lent[i]]
            0 <= i < functions.len() ==> *lent[i] == states[i] && *final(lent[i]) == states[i + 1]
                && functions[i].ran(lent[i]),
        forall|i: int, conn: &mut rusqlite::Connection|
            0 <= i < functions.len() && #[trigger] functions[i].ran(conn) ==> observed(*final(conn))
                == acts[i](observed(*conn)),
    ensures
        observed(states.last()) == acts.fold_left(
            observed(states[0]),
            |seen: T, act: spec_fn(T) -> T| act(seen),
        ),
    decreases functions.len(),
{
    if functions.len() > 0 {
        let last = functions.len() - 1;
        let earlier = functions.drop_last();
        let acted = acts.drop_last();
        assert forall|i: int, conn: &mut rusqlite::Connection| 0 <= i < earlier.len()
            && #[trigger] earlier[i].ran(conn) implies observed(*final(conn)) == acted[i](
            observed(*conn),
        ) by {
            assert(functions[i].ran(conn));
        }
        functions_compose(earlier, lent.drop_last(), states.drop_last(), observed, acted);
        let function = functions[last];
    }
}

/// Increments add up, however many handles they came through: where each of `functions` raises a
/// stored number by one, the number is raised by as many as there are functions.
///
/// Function `i` is run with the borrow `lent[i]`, from `states[i]` to `states[i + 1]`.
pub proof fn increments_add_up(
    functions: Seq<CallFn>,
    lent: Seq<&mut rusqlite::Connection>,
    states: Seq<rusqlite::Connection>,
    stored: spec_fn(rusqlite::Connection) -> int,
)
    requires
        lent.len() == functions.len(),
        states.len() == functions.len() + 1,
        forall|i: int|
            #![trigger functions[i]]
            #![trigger lent[i]]
            0 <= i < functions.len() ==> *lent[i] == states[i] && *final(lent[i]) == states[i + 1]
                && functions[i].ran(lent[i]),
        forall|i: int, conn: &mut rusqlite::Connection|
            0 <= i < functions.len() && #[trigger] functions[i].ran(conn) ==> stored(*final(conn))
                == stored(*conn) + 1,
    ensures
        stored(states.last()) == stored(states[0]) + functions.len(),
{
    let act: spec_fn(int) -> int = |n: int| n + 1;
    let acts = Seq::new(functions.len(), |i: int| act);
    functions_compose(functions, lent, states, stored, acts);
    folded_increments(acts, stored(states[0]));
}

/// Adding one as often as `acts` is long adds that length.
proof fn folded_increments(acts: Seq<spec_fn(int) -> int>, start: int)
    requires
        forall|i: int, n: int| 0 <= i < acts.len() ==> #[trigger] acts[i](n) == n + 1,
    ensures
        acts.fold_left(start, |seen: int, act: spec_fn(int) -> int| act(seen)) == start
            + acts.len(),
    decreases acts.len(),
{
    if acts.len() > 0 {
        let earlier = acts.drop_last();
        assert forall|i: int, n: int| 0 <= i < earlier.len() implies #[trigger] earlier[i](n) == n
            + 1 by {
            assert(acts[i](n) == n + 1);
        }
        folded_increments(earlier, start);
    }
}

/// What a call hands to the channel of its connection has the function of the call run, whatever
/// its types are, and sends the value to the receiver that the caller keeps. The call is taken if
/// and only if the channel takes the message.
pub proof fn call_sends_its_function<F, R>(
    conn: Connection,
    function: F,
    receiver: oneshot::Receiver<R>,
    submitted: Result<(), Closed>,
) where F: FnOnce(&mut rusqlite::Connection) -> R + Send + 'static, R: Send + 'static
    requires
        conn.submits(function, receiver, submitted),
    ensures
        exists|packed: CallFn, sent: Result<(), SendError<Message>>|
            {
                &&& #[trigger] crate::call::packs(function, packed, receiver)
                &&& #[trigger] call_ensures(
                    Sender::<Message>::send,
                    (&conn.handle().sender(), Message::Execute(packed)),
                    sent,
                )
                &&& submitted is Ok <==> sent is Ok
            },
{
    let packed = choose|packed: Message|
        {
            &&& #[trigger] <Handle as Owner<F, R>>::holds(function, packed, receiver)
            &&& #[trigger] <Handle as Owner<F, R>>::may_take(&conn.handle(), packed, submitted)
        };
    let sent = choose|sent: Result<(), SendError<Message>>| #[trigger]
        conn.handle().send_may_give(packed, sent) && submitted == crate::threaded::accepted(sent);
    assert(crate::call::packs(function, packed->Execute_0, receiver));
    assert(call_ensures(Sender::<Message>::send, (&conn.handle().sender(), packed), sent));
}

/// The message that a function is packed into, which is the only one that a call has to hand over,
/// has that function run. It is never a request to close.
pub proof fn calls_never_close<F, R>(
    function: F,
    packed: Message,
    receiver: oneshot::Receiver<R>,
) where F: FnOnce(&mut rusqlite::Connection) -> R + Send + 'static, R: Send + 'static
    requires
        <Handle as Owner<F, R>>::holds(function, packed, receiver),
    ensures
        packed matches Message::Execute(execute) && crate::call::packs(function, execute, receiver),
        !crate::threaded::closings().contains(packed),
{
}

/// An attempt to close hands the channel a request to close, keeps the receiver of its answer, and
/// finds the thread gone if and only if the channel refuses the request.
pub proof fn closing_asks_to_close(handle: Handle, closing: Closing)
    requires
        handle.close_may_give(closing),
    ensures
        exists|
            reply: oneshot::Sender<Result<(), rusqlite::Error>>,
            answer: oneshot::Receiver<Result<(), rusqlite::Error>>,
            sent: Result<(), SendError<Message>>,
        |
            {
                &&& #[trigger] call_ensures(
                    oneshot::channel::<Result<(), rusqlite::Error>>,
                    (),
                    (reply, answer),
                )
                &&& #[trigger] call_ensures(
                    Sender::<Message>::send,
                    (&handle.sender(), Message::Close(reply)),
                    sent,
                )
                &&& sent is Ok ==> closing == Closing::Asked(answer)
                &&& sent is Err ==> closing is Gone
            },
        forall|message: Message| #[trigger]
            crate::threaded::closings().contains(message) <==> message is Close,
{
    let (reply, answer, sent) = choose|
        reply: oneshot::Sender<Result<(), rusqlite::Error>>,
        answer: oneshot::Receiver<Result<(), rusqlite::Error>>,
        sent: Result<(), SendError<Message>>,
    |
        {
            &&& #[trigger] call_ensures(
                oneshot::channel::<Result<(), rusqlite::Error>>,
                (),
                (reply, answer),
            )
            &&& #[trigger] handle.send_may_give(Message::Close(reply), sent)
            &&& closing == match sent {
                Ok(()) => Closing::Asked(answer),
                Err(_) => Closing::Gone,
            }
        };
    assert(call_ensures(
        Sender::<Message>::send,
        (&handle.sender(), Message::Close(reply)),
        sent,
    ));
}

/// What a handle sends comes out on its own thread, and the report of the opening reaches the task
/// that waits for it.
pub proof fn both_sides_belong_together(starting: Starting)
    requires
        starting.connected(),
    ensures
        call_ensures(
            crossbeam_channel::unbounded::<Message>,
            (),
            (starting.handle.handle().sender(), starting.worker.receiver),
        ),
        call_ensures(
            oneshot::channel::<Result<(), rusqlite::Error>>,
            (),
            (starting.worker.reply, starting.opened),
        ),
{
}

/// A caller gets the value of its function if the function gave one, the function's own error,
/// untouched, if it failed, and [`Error::ConnectionClosed`] if and only if nothing came back. A
/// call that was taken is waited for, and one that was refused is not.
pub proof fn callers_get_what_came<R, E>(
    value: R,
    failure: E,
    canceled: oneshot::Canceled,
    receiver: oneshot::Receiver<R>,
    closed: Closed,
)
    ensures
        crate::call::raw_result(Ok(value)) == Ok::<R, Error>(value),
        crate::call::raw_result::<R>(Err(canceled)) == Err::<R, Error>(Error::ConnectionClosed),
        crate::call::call_result::<R, E>(Ok(Ok(value))) == Ok::<R, Error<E>>(value),
        crate::call::call_result::<R, E>(Ok(Err(failure))) == Err::<R, Error<E>>(
            Error::Error(failure),
        ),
        crate::call::call_result::<R, E>(Err(canceled)) == Err::<R, Error<E>>(
            Error::ConnectionClosed,
        ),
        crate::call::flattened::<R, E>(Ok(Ok(value))) == Ok::<R, Error<E>>(value),
        crate::call::flattened::<R, E>(Ok(Err(failure))) == Err::<R, Error<E>>(
            Error::Error(failure),
        ),
        crate::call::flattened::<R, E>(Err(Error::ConnectionClosed)) == Err::<R, Error<E>>(
            Error::ConnectionClosed,
        ),
        crate::call::pending::<R, E>(Ok(()), receiver) == Ok::<_, Error<E>>(receiver),
        crate::call::pending::<R, E>(Err(closed), receiver) == Err::<oneshot::Receiver<R>, _>(
            Error::<E>::ConnectionClosed,
        ),
{
}

/// An attempt to close does as SQLite says: it succeeds, and nothing is kept, if and only if
/// SQLite closed the database. Otherwise SQLite's error and SQLite's connection come back. Where
/// there is no answer, the connection has been closed before, and that counts as success.
pub proof fn closing_does_as_sqlite_says(
    conn: Connection,
    before: rusqlite::Connection,
    closed: Result<(), (rusqlite::Connection, rusqlite::Error)>,
    canceled: oneshot::Canceled,
)
    requires
        crate::close::close_may_give(before, closed),
    ensures
        call_ensures(rusqlite::Connection::close, (before,), closed),
        match closed {
            Ok(()) => {
                &&& crate::close::report_of(closed) is Ok
                &&& crate::close::kept_after(closed) is None
                &&& crate::connection::close_result(conn, crate::close::report_of(closed)) is Ok
            },
            Err((kept, e)) => {
                &&& crate::close::report_of(closed) == Err::<(), rusqlite::Error>(e)
                &&& crate::close::kept_after(closed) == Some(kept)
            },
        },
        crate::threaded::close_answer(Some(Ok(crate::close::report_of(closed))))
            == crate::close::report_of(closed),
        crate::threaded::close_answer(Some(Err(canceled))) is Ok,
        crate::threaded::close_answer(None) is Ok,
{
}

/// A successful close ends the thread, whoever hears of it.
pub proof fn successful_close_ends_the_thread(
    answered: Result<(), Result<(), rusqlite::Error>>,
    receiver: Receiver<Message>,
)
    ensures
        crate::threaded::after_close(Ok(()), answered, receiver).held() is None,
        crate::threaded::after_close(Ok(()), answered, receiver) is Stopped <==> answered is Ok,
        crate::threaded::after_close(Ok(()), answered, receiver) is Unheard <==> answered is Err,
{
}

/// An error reads as the name of its variant, and the text of the error underneath stands in it
/// whole, whatever it is.
pub proof fn errors_read_in_full<E: Display>(
    conn: Connection,
    sqlite: rusqlite::Error,
    application: E,
    text: Seq<char>,
)
    ensures
        crate::error::reads_as(Error::<E>::ConnectionClosed, text) ==> text
            == "ConnectionClosed"@,
        crate::error::reads_as(Error::<E>::Close((conn, sqlite)), text) ==> exists|detail: String|
            #[trigger] vstd::string::to_string_from_display_ensures(&sqlite, detail) && text
                == "Close((Connection, \""@ + detail@ + "\"))"@,
        crate::error::reads_as(Error::<E>::Error(application), text) ==> exists|detail: String|
            #[trigger] vstd::string::to_string_from_display_ensures(&application, detail) && text
                == "Error(\""@ + detail@ + "\")"@,
{
}

/// Two errors of one kind read the same only if the errors underneath do.
pub proof fn texts_tell_details_apart(one: Seq<char>, other: Seq<char>)
    ensures
        crate::error::close_reads(one) == crate::error::close_reads(other) ==> one == other,
        crate::error::application_reads(one) == crate::error::application_reads(other) ==> one
            == other,
{
    let open = "Close((Connection, \""@;
    let start = "Error(\""@;
    let (a, b) = (crate::error::close_reads(one), crate::error::close_reads(other));
    let (c, d) = (crate::error::application_reads(one), crate::error::application_reads(other));
    if a == b {
        assert(one =~= a.subrange(open.len() as int, (open.len() + one.len()) as int));
        assert(other =~= b.subrange(open.len() as int, (open.len() + other.len()) as int));
    }
    if c == d {
        assert(one =~= c.subrange(start.len() as int, (start.len() + one.len()) as int));
        assert(other =~= d.subrange(start.len() as int, (start.len() + other.len()) as int));
    }
}

} // verus!
