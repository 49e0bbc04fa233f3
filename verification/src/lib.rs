//! Asynchronous handle for the rusqlite library.
//!
//! [`Connection`] is a handle to call functions in a background thread and can be cloned cheaply.
//! A thread serves each opened connection. A function to call is boxed, sent to the thread
//! through an mpsc channel and run there, and its value is sent back through a oneshot channel.
//!
//! The library never waits. Where there is something to wait for, a method comes in two parts: the
//! first hands out what to wait for, and the second, whose name starts with `finish_`, takes what
//! came of it. Spawning the thread, receiving its messages and awaiting its answers is left to
//! the program around the library.
//!
//! Targets without threads use the [`inline`] backend instead. Both backends keep to one
//! [`protocol`], and [`laws`] says what follows from it.

pub mod call;
pub mod close;
pub mod connection;
pub mod error;
pub mod footprint;
mod foreign;
pub mod inline;
pub mod laws;
pub mod open;
pub mod owner;
pub mod protocol;
pub mod queue;
pub mod threaded;

pub use connection::Connection;
pub use error::{Cause, Closed, Error, BUG_TEXT};
pub use open::{OpenFlags, OpenRequest};
pub use threaded::{Closing, Served, Server, Starting, Worker};
