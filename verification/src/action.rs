//! The operation that is retried.

use std::future::Future;
use vstd::prelude::*;

verus! {

/// An action can be run multiple times and produces a future.
///
/// Every run must hand out a fresh future, which resolves to the item or to
/// the error of that attempt.
pub trait Action: Unpin {
    /// The future that this action produces.
    type Future: Future<Output = Result<Self::Item, Self::Error>>;

    /// The item that the future may resolve with.
    type Item;

    /// The error that the future may resolve with.
    type Error;

    /// Run this action, returning a future.
    fn run(&mut self) -> Self::Future;
}

/// A future that resolves to a `Result`, with the two sides of the result
/// named. Every such future is an `Attempt`.
pub trait Attempt: Future<Output = Result<Self::Item, Self::Error>> {
    /// The success value.
    type Item;

    /// The error value.
    type Error;
}

impl<I, E, T: Future<Output = Result<I, E>>> Attempt for T {
    type Item = I;

    type Error = E;
}

/// Calls a closure through `FnMut::call_mut`, believed and not proved: what
/// comes back is what the closure returns, so where the closure's own
/// precondition holds, the result is one that its postcondition admits.
/// Nothing is claimed of what the call does to the closure.
#[verifier::external_body]
fn invoke<T, F: FnMut() -> T>(operation: &mut F) -> (made: T)
    ensures
        call_requires(*old(operation), ()) ==> call_ensures(*old(operation), (), made),
{
    operation()
}

/// Any closure that makes a fresh fallible future on each call is an action:
/// to run it is to call the closure, and the future is what the call returns.
impl<T: Attempt, F: FnMut() -> T> Action for F where F: Unpin {
    type Item = T::Item;

    type Error = T::Error;

    type Future = T;

    fn run(&mut self) -> (future: T)
        ensures
            call_requires(*old(self), ()) ==> call_ensures(*old(self), (), future),
    {
        invoke::<T, F>(self)
    }
}

} // verus!
