//! What may be done with a handle where it matters that nothing else is done with it.
//!
//! The functions that go by these traits know nothing else of the handle that they are given. So a
//! call cannot close the connection that it is made on, and neither can copying or printing a
//! connection.

use futures_channel::oneshot;
use vstd::prelude::*;

use crate::error::Closed;

verus! {

/// What can be copied, the copy being as good as the original.
pub trait Share: Sized {
    /// Another one, to the same end.
    fn another(&self) -> (copy: Self)
        ensures
            copy == *self,
    ;
}

/// The sending half of a channel, as far as a handle has to know it.
pub trait Line: Share {
    /// Sending never blocks.
    spec fn is_unbounded(self) -> bool;
}

/// The owner of a connection, or the way to it, as far as a call of an `F` may use it.
///
/// A caller that knows no more than this has a single value to hand over: the one that its `F` was
/// packed into.
pub trait Owner<F, R> where F: FnOnce(&mut rusqlite::Connection) -> R {
    /// A function that is ready to be handed over.
    type Packed;

    /// Running `packed` runs `function` and sends its value to `receiver`.
    spec fn holds(function: F, packed: Self::Packed, receiver: oneshot::Receiver<R>) -> bool;

    /// `submitted` may be what comes of handing `packed` over.
    spec fn may_take(&self, packed: Self::Packed, submitted: Result<(), Closed>) -> bool;

    /// Packs up `function` and keeps the receiver that its value will come out of.
    fn pack(function: F) -> (prepared: (Self::Packed, oneshot::Receiver<R>))
        requires
            forall|conn: &mut rusqlite::Connection| call_requires(function, (conn,)),
        ensures
            Self::holds(function, prepared.0, prepared.1),
    ;

    /// Hands `packed` over, and nothing else.
    fn put(&self, packed: Self::Packed) -> (submitted: Result<(), Closed>)
        ensures
            self.may_take(packed, submitted),
        opens_invariants [crate::footprint::number(packed)]
    ;
}

} // verus!
