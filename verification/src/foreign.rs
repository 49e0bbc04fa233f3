//! The types and functions of other crates that the library builds on.
//!
//! Everything stated here is taken on trust. So are the few calls that stand behind a wrapper,
//! where they are made: those that open a database and the one that reads the bytes of a path in
//! `open.rs`, the one that gives up a channel in `threaded.rs`, and the one that writes a text in
//! `connection.rs`. The rest of the library is proved from them.

use crossbeam_channel::{Receiver, RecvError, SendError, Sender};
use futures_channel::oneshot;
use rusqlite::{Connection as SqliteConnection, Error as SqliteError};
use vstd::prelude::*;

verus! {

/// A `rusqlite::Connection`: one open SQLite database, opaque to the proofs.
#[verifier::external_type_specification]
#[verifier::external_body]
pub struct ExSqliteConnection(SqliteConnection);

/// A `rusqlite::Error`, carried through and never looked into.
#[verifier::external_type_specification]
#[verifier::external_body]
pub struct ExSqliteError(SqliteError);

/// A `std::path::PathBuf`. The proofs see nothing of it but the bytes that it is asked for.
#[verifier::external_type_specification]
#[verifier::external_body]
pub struct ExPathBuf(std::path::PathBuf);

/// The sending half of an unbounded `crossbeam_channel`. Its value stands for the channel that
/// it sends into.
#[verifier::external_type_specification]
#[verifier::external_body]
#[verifier::reject_recursive_types(T)]
pub struct ExSender<T>(Sender<T>);

/// The receiving half of an unbounded `crossbeam_channel`.
#[verifier::external_type_specification]
#[verifier::external_body]
#[verifier::reject_recursive_types(T)]
pub struct ExReceiver<T>(Receiver<T>);

/// The error of `crossbeam_channel`'s `send`, which holds the message that was not sent.
#[verifier::external_type_specification]
#[verifier::reject_recursive_types(T)]
pub struct ExSendError<T>(SendError<T>);

/// The error of `crossbeam_channel`'s `recv`: the channel is empty and every sender is gone.
#[verifier::external_type_specification]
pub struct ExRecvError(RecvError);

/// The sending half of a `futures_channel` oneshot channel, used up by its one message.
#[verifier::external_type_specification]
#[verifier::external_body]
#[verifier::reject_recursive_types(T)]
pub struct ExOneshotSender<T>(oneshot::Sender<T>);

/// The receiving half of a `futures_channel` oneshot channel: a future for the one message.
#[verifier::external_type_specification]
#[verifier::external_body]
#[verifier::reject_recursive_types(T)]
pub struct ExOneshotReceiver<T>(oneshot::Receiver<T>);

/// What a oneshot receiver gives when its sender was dropped without sending.
#[verifier::external_type_specification]
pub struct ExCanceled(oneshot::Canceled);

/// A `std::fmt::Formatter`: where a text is written to.
#[verifier::external_type_specification]
#[verifier::external_body]
pub struct ExFormatter<'a>(std::fmt::Formatter<'a>);

/// The error of writing to a formatter.
#[verifier::external_type_specification]
pub struct ExFmtError(std::fmt::Error);

/// `crossbeam_channel::unbounded` makes a channel and hands out its two halves. Nothing is
/// claimed of the halves one by one; that a sender and a receiver belong together is the same
/// as that one call returned both.
pub assume_specification<T>[ crossbeam_channel::unbounded::<T> ]() -> (halves: (
    Sender<T>,
    Receiver<T>,
))
    opens_invariants none
;

/// `crossbeam_channel::Sender::send` on an unbounded channel queues the message, or, when the
/// receiver is gone, hands the same message back. Which of the two happens depends on the
/// receiving thread, so it is left open. On a bounded channel the call can block, so only a
/// sender that `unbounded` has made is admitted. A caller may send only messages whose number its
/// own header lists (see [`footprint`](crate::footprint)).
pub assume_specification<T>[ Sender::<T>::send ](sender: &Sender<T>, msg: T) -> (sent: Result<
    (),
    SendError<T>,
>)
    requires
        exists|receiver: Receiver<T>|
            call_ensures(crossbeam_channel::unbounded::<T>, (), (*sender, receiver)),
    ensures
        sent matches Err(SendError(returned)) ==> returned == msg,
    opens_invariants [crate::footprint::number(msg)]
;

/// `crossbeam_channel::Sender::clone` gives another sender into the same channel.
pub assume_specification<T>[ <Sender<T> as Clone>::clone ](sender: &Sender<T>) -> (copy: Sender<T>)
    ensures
        copy == *sender,
;

/// `futures_channel::oneshot::channel` makes a channel for one message and hands out its two
/// halves. That a sender and a receiver belong together is the same as that one call returned
/// both.
pub assume_specification<T>[ oneshot::channel::<T> ]() -> (halves: (
    oneshot::Sender<T>,
    oneshot::Receiver<T>,
))
    opens_invariants none
;

/// `futures_channel::oneshot::Sender::send` stores the message for the receiver, or, when the
/// receiver is gone, hands the same message back. Which of the two happens depends on the
/// receiving task, so it is left open.
pub assume_specification<T>[ oneshot::Sender::<T>::send ](
    sender: oneshot::Sender<T>,
    t: T,
) -> (sent: Result<(), T>)
    ensures
        sent matches Err(returned) ==> returned == t,
    opens_invariants none
;

/// `rusqlite::Connection::close` closes the database, or, when SQLite refuses, hands the
/// connection back beside the error. Which of the two happens is SQLite's to decide, so it is
/// left open.
pub assume_specification[ SqliteConnection::close ](conn: SqliteConnection) -> (closed: Result<
    (),
    (SqliteConnection, SqliteError),
>)
    opens_invariants none
;

/// `rusqlite::Connection::open_in_memory` opens a fresh in-memory database. Whether it succeeds
/// is SQLite's to decide, so it is left open. A caller may open one only where its own header lists
/// the number of that request.
pub assume_specification[ SqliteConnection::open_in_memory ]() -> (opened: Result<
    SqliteConnection,
    SqliteError,
>)
    opens_invariants [crate::footprint::number(crate::open::OpenRequest::Memory)]
;

} // verus!
