//! What can go wrong with a connection.

use std::fmt::Display;
use vstd::prelude::*;

use crate::connection::Connection;

verus! {

/// Said where the library finds itself in a state that it cannot be in.
pub const BUG_TEXT: &'static str = "bug in tokio-rusqlite, please report";

/// Represents the errors specific for this library.
#[derive(Debug)]
#[non_exhaustive]
pub enum Error<E = rusqlite::Error> {
    /// The connection to the SQLite has been closed and cannot be queried any more.
    ConnectionClosed,
    /// An error occured while closing the SQLite connection.
    /// This variant contains the [`Connection`], which can be used to retry the close operation
    /// and the underlying `rusqlite::Error` that made it impossible to close the database.
    Close((Connection, rusqlite::Error)),
    /// An application-specific error occured.
    Error(E),
}

/// Marker error signalling that a connection is no longer available.
#[derive(Debug)]
pub struct Closed;

/// The error underneath an [`Error`].
pub enum Cause<'a, E> {
    /// SQLite refused to close the database.
    Sqlite(&'a rusqlite::Error),
    /// The application's own error.
    Application(&'a E),
}

/// How the failure to close a connection reads, given the text of SQLite's error.
pub open spec fn close_reads(detail: Seq<char>) -> Seq<char> {
    "Close((Connection, \""@ + detail + "\"))"@
}

/// How an application's own error reads, given its text.
pub open spec fn application_reads(detail: Seq<char>) -> Seq<char> {
    "Error(\""@ + detail + "\")"@
}

/// `text` is how `error` reads: the name of its variant, around the text of the error
/// underneath where there is one.
pub open spec fn reads_as<E: Display>(error: Error<E>, text: Seq<char>) -> bool {
    match error {
        Error::ConnectionClosed => text == "ConnectionClosed"@,
        Error::Close((_, e)) => exists|detail: String|
            #[trigger] vstd::string::to_string_from_display_ensures(&e, detail) && text
                == close_reads(detail@),
        Error::Error(e) => exists|detail: String|
            #[trigger] vstd::string::to_string_from_display_ensures(&e, detail) && text
                == application_reads(detail@),
    }
}

/// The text of a failure to close a connection, given the text of SQLite's error.
pub fn close_text(detail: &str) -> (text: String)
    ensures
        text@ == close_reads(detail@),
{
    "Close((Connection, \"".to_owned().concat(detail).concat("\"))")
}

/// The text of an application's own error, given what that error reads as.
pub fn application_text(detail: &str) -> (text: String)
    ensures
        text@ == application_reads(detail@),
{
    "Error(\"".to_owned().concat(detail).concat("\")")
}

impl<E: Display> Error<E> {
    /// The text of this error.
    pub fn to_text(&self) -> (text: String)
        ensures
            reads_as(*self, text@),
    {
        match self {
            Error::ConnectionClosed => "ConnectionClosed".to_owned(),
            Error::Close((_, e)) => close_text(e.to_string().as_str()),
            Error::Error(e) => application_text(e.to_string().as_str()),
        }
    }
}

impl<E> Error<E> {
    /// The error underneath, if there is one.
    pub fn source(&self) -> (cause: Option<Cause<'_, E>>)
        ensures
            cause == match *self {
                Error::ConnectionClosed => None,
                Error::Close((_, e)) => Some(Cause::Sqlite(&e)),
                Error::Error(e) => Some(Cause::Application(&e)),
            },
    {
        match self {
            Error::ConnectionClosed => None,
            Error::Close((_, e)) => Some(Cause::Sqlite(e)),
            Error::Error(e) => Some(Cause::Application(e)),
        }
    }
}

impl From<rusqlite::Error> for Error {
    fn from(value: rusqlite::Error) -> (error: Self) {
        Error::Error(value)
    }
}

impl vstd::std_specs::convert::FromSpecImpl<rusqlite::Error> for Error {
    open spec fn obeys_from_spec() -> bool {
        true
    }

    open spec fn from_spec(value: rusqlite::Error) -> Self {
        Error::Error(value)
    }
}

} // verus!
