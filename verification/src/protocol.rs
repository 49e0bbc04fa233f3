//! What the owner of a connection may answer to the requests that it is put, one after another.
//!
//! The owner holds an open connection, or nothing once it is closed. Both backends keep to this
//! protocol: the inline one step by step, the threaded one as its callers see it.

use futures_channel::oneshot;
use vstd::prelude::*;

use crate::call::CallFn;
use crate::error::{Closed, Error};

verus! {

/// Something asked of the owner of a connection.
pub enum Request {
    /// Run a function against the connection.
    Call(CallFn),
    /// Close the connection.
    Close,
}

/// What the owner of a connection says to a request.
pub enum Answer {
    /// The function was run, or refused.
    Call(Result<(), Closed>),
    /// The connection is closed, or SQLite refused to close it.
    Close(Result<(), rusqlite::Error>),
}

/// A call of `function` takes the owner from `before` to `after` and is answered `submitted`: an
/// open connection has the function run on it and stays open, a closed one refuses the function.
pub open spec fn call_step(
    before: Option<rusqlite::Connection>,
    function: CallFn,
    after: Option<rusqlite::Connection>,
    submitted: Result<(), Closed>,
) -> bool {
    match before {
        None => after is None && submitted is Err,
        Some(conn) => after is Some && submitted is Ok && function.ran_on(conn),
    }
}

/// An attempt to close takes the owner from `before` to `after` and is answered `report`: an open
/// connection does as SQLite says, a closed one reports success.
pub open spec fn close_step(
    before: Option<rusqlite::Connection>,
    after: Option<rusqlite::Connection>,
    report: Result<(), rusqlite::Error>,
) -> bool {
    match before {
        None => after is None && report is Ok,
        Some(conn) => exists|closed: Result<(), (rusqlite::Connection, rusqlite::Error)>|
            {
                &&& #[trigger] crate::close::close_may_give(conn, closed)
                &&& report == crate::close::report_of(closed)
                &&& after == crate::close::kept_after(closed)
            },
    }
}

/// One request takes the owner from `before` to `after` and gets `answer`.
pub open spec fn step(
    before: Option<rusqlite::Connection>,
    request: Request,
    after: Option<rusqlite::Connection>,
    answer: Answer,
) -> bool {
    match request {
        Request::Call(function) => answer matches Answer::Call(submitted) && call_step(
            before,
            function,
            after,
            submitted,
        ),
        Request::Close => answer matches Answer::Close(report) && close_step(
            before,
            after,
            report,
        ),
    }
}

/// Requests that were put to the owner of a connection one after another.
pub struct History {
    /// What was asked.
    pub requests: Seq<Request>,
    /// What each request was answered.
    pub answers: Seq<Answer>,
    /// What the owner held: `states[i]` when request `i` came, `states[i + 1]` after it.
    pub states: Seq<Option<rusqlite::Connection>>,
}

impl History {
    /// Every request got its answer from what the request before it left.
    pub open spec fn valid(self) -> bool {
        &&& self.answers.len() == self.requests.len()
        &&& self.states.len() == self.requests.len() + 1
        &&& forall|i: int| #![trigger self.requests[i]]
            0 <= i < self.requests.len() ==> step(
                self.states[i],
                self.requests[i],
                self.states[i + 1],
                self.answers[i],
            )
    }

    /// Request `i` was answered with the news that the connection is closed.
    pub open spec fn reports_closed(self, i: int) -> bool {
        self.answers[i] matches Answer::Close(report) && report is Ok
    }
}

/// The functions among `requests`, in order.
pub open spec fn functions(requests: Seq<Request>) -> Seq<CallFn>
    decreases requests.len(),
{
    if requests.len() == 0 {
        Seq::empty()
    } else {
        let earlier = functions(requests.drop_last());
        match requests.last() {
            Request::Call(function) => earlier.push(function),
            Request::Close => earlier,
        }
    }
}

/// The functions that were run, in the order in which they were.
pub open spec fn functions_run(requests: Seq<Request>, answers: Seq<Answer>) -> Seq<CallFn>
    decreases requests.len(),
{
    if requests.len() == 0 {
        Seq::empty()
    } else {
        let earlier = functions_run(requests.drop_last(), answers.drop_last());
        match (requests.last(), answers.last()) {
            (Request::Call(function), Answer::Call(Ok(()))) => earlier.push(function),
            _ => earlier,
        }
    }
}

/// What becomes of a message to the background thread.
pub enum Fate<T> {
    /// The channel did not take it.
    Refused,
    /// The channel took it, and the thread ended without answering it.
    Unanswered,
    /// The thread answered it.
    Answered(T),
}

/// What becomes of a request to the background thread.
pub enum Ending {
    /// The fate of a call. Its answer is the value of the function.
    Call(Fate<()>),
    /// The fate of an attempt to close.
    Close(Fate<Result<(), rusqlite::Error>>),
}

/// The fate of a call, as its caller sees it.
pub open spec fn call_fate<R>(
    submitted: Result<(), Closed>,
    received: Result<R, oneshot::Canceled>,
) -> Fate<R> {
    match submitted {
        Err(_) => Fate::Refused,
        Ok(()) => match received {
            Err(_) => Fate::Unanswered,
            Ok(value) => Fate::Answered(value),
        },
    }
}

/// The fate of an attempt to close, as its caller sees it.
pub open spec fn close_fate(
    answer: Option<Result<Result<(), rusqlite::Error>, oneshot::Canceled>>,
) -> Fate<Result<(), rusqlite::Error>> {
    match answer {
        None => Fate::Refused,
        Some(Err(_)) => Fate::Unanswered,
        Some(Ok(report)) => Fate::Answered(report),
    }
}

/// What the caller of a function gets back.
pub open spec fn call_outcome<R>(fate: Fate<R>) -> Result<R, Error> {
    match fate {
        Fate::Answered(value) => Ok(value),
        _ => Err(Error::ConnectionClosed),
    }
}

/// What the caller of a close gets back.
pub open spec fn close_outcome(
    fate: Fate<Result<(), rusqlite::Error>>,
) -> Result<(), rusqlite::Error> {
    match fate {
        Fate::Answered(report) => report,
        _ => Ok(()),
    }
}

/// The answer to a request to the background thread, as its caller sees it.
pub open spec fn seen(ending: Ending) -> Answer {
    match ending {
        Ending::Call(fate) => match call_outcome(fate) {
            Ok(()) => Answer::Call(Ok(())),
            Err(_) => Answer::Call(Err(Closed)),
        },
        Ending::Close(fate) => Answer::Close(close_outcome(fate)),
    }
}

/// One request to the background thread. The thread serves it and answers it, whether or not the
/// caller still waits, or, once it has ended, leaves it unanswered if the channel takes it at all.
pub open spec fn thread_step(
    before: Option<rusqlite::Connection>,
    request: Request,
    after: Option<rusqlite::Connection>,
    ending: Ending,
) -> bool {
    match before {
        Some(conn) => match request {
            Request::Call(function) => after is Some && function.ran_on(conn) && ending
                == Ending::Call(Fate::Answered(())),
            Request::Close => ending matches Ending::Close(Fate::Answered(report)) && close_step(
                before,
                after,
                report,
            ),
        },
        None => after is None && match request {
            Request::Call(_) => ending == Ending::Call(Fate::Refused) || ending == Ending::Call(
                Fate::Unanswered,
            ),
            Request::Close => ending == Ending::Close(Fate::Refused) || ending == Ending::Close(
                Fate::Unanswered,
            ),
        },
    }
}

/// Requests that were put to a background thread one after another.
pub struct ThreadHistory {
    /// What was asked.
    pub requests: Seq<Request>,
    /// What became of each request.
    pub endings: Seq<Ending>,
    /// What the thread held: `states[i]` when request `i` came, `states[i + 1]` after it. A thread
    /// that has ended holds nothing.
    pub states: Seq<Option<rusqlite::Connection>>,
}

impl ThreadHistory {
    /// Every request was served from what the request before it left.
    pub open spec fn valid(self) -> bool {
        &&& self.endings.len() == self.requests.len()
        &&& self.states.len() == self.requests.len() + 1
        &&& forall|i: int| #![trigger self.requests[i]]
            0 <= i < self.requests.len() ==> thread_step(
                self.states[i],
                self.requests[i],
                self.states[i + 1],
                self.endings[i],
            )
    }

    /// The same requests with the answers that their callers see.
    pub open spec fn as_seen(self) -> History {
        History {
            requests: self.requests,
            answers: Seq::new(self.endings.len(), |i: int| seen(self.endings[i])),
            states: self.states,
        }
    }
}

} // verus!
