//! What a function may do to the world outside its arguments.
//!
//! A contract says what a function returns, not what else it does on the way. A sender is shared,
//! so a function that holds one could send any number of messages through it and still return
//! what it promises. Which calls of that kind a function may make is therefore part of its header:
//! each of them has a [`number`], and the names behind `opens_invariants` are the numbers of the
//! calls that are allowed. A function whose header says `none` there makes no such call, and one
//! whose header lists the number of one value makes it with this value alone. A function that says
//! nothing is not bound in this way; where it holds a handle all the same, it knows the handle only
//! by the traits in [`owner`](crate::owner).
//!
//! The library has no other invariants, so the names serve for nothing else. What uses up the
//! value that it is called on, as the answer through a oneshot channel does, has no number: it
//! cannot be done twice.

use vstd::prelude::*;

verus! {

/// `numbering` tells all values apart.
pub open spec fn tells_apart<T>(numbering: spec_fn(T) -> int) -> bool {
    forall|a: T, b: T| #[trigger] numbering(a) == #[trigger] numbering(b) ==> a == b
}

/// The number of a value, under one numbering of its type that tells the values apart.
pub closed spec fn number<T>(value: T) -> int {
    let numbering = choose|numbering: spec_fn(T) -> int| tells_apart(numbering);
    numbering(value)
}

/// The numbers of some values.
pub open spec fn numbers<T>(values: Set<T>) -> Set<int> {
    Set::new(|n: int| exists|value: T| values.contains(value) && n == #[trigger] number(value))
}

} // verus!
