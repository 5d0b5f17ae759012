//! The predicate that decides whether an error is worth another attempt.

use vstd::prelude::*;

verus! {

/// Specifies under which conditions a retry is attempted.
pub trait Condition<E> {
    /// `retry` is an answer that this condition may give when it is asked
    /// about `error`. Of a condition that says nothing here, any answer may
    /// come.
    open spec fn answers(&self, error: &E, retry: bool) -> bool {
        true
    }

    /// Determine whether to retry based on the previous error.
    ///
    /// The answer is one that the condition may give for the error, and the
    /// condition never comes to give an answer that it could not give
    /// before.
    fn should_retry(&mut self, error: &E) -> (retry: bool)
        ensures
            old(self).answers(error, retry),
            forall|e: E, r: bool| #[trigger] final(self).answers(&e, r) ==> old(self).answers(&e, r),
    ;
}

/// Calls a closure through `Fn::call`, believed and not proved: what comes
/// back is what the closure returns, so where the closure's own precondition
/// holds of the error, the answer is one that its postcondition admits.
#[verifier::external_body]
fn ask<E, F: Fn(&E) -> bool>(predicate: &F, error: &E) -> (answer: bool)
    ensures
        call_requires(*predicate, (error,)) ==> call_ensures(*predicate, (error,), answer),
{
    predicate(error)
}

/// Any closure from an error to a `bool` is a condition: the answer is what
/// the closure returns for the error, and the closure stays as it is.
impl<E, F: Fn(&E) -> bool> Condition<E> for F {
    open spec fn answers(&self, error: &E, retry: bool) -> bool {
        call_requires(*self, (error,)) ==> call_ensures(*self, (error,), retry)
    }

    fn should_retry(&mut self, error: &E) -> (retry: bool)
        ensures
            call_requires(*old(self), (error,)) ==> call_ensures(*old(self), (error,), retry),
            *final(self) == *old(self),
    {
        ask::<E, F>(self, error)
    }
}

/// What a closure answers as a condition is what it returns as a closure:
/// where its own precondition holds of the error, an answer that its
/// postcondition admits.
pub proof fn lemma_closure_answers<E, F: Fn(&E) -> bool>(predicate: F)
    ensures
        forall|e: E, r: bool| #[trigger]
            predicate.answers(&e, r) == (call_requires(predicate, (&e,)) ==> call_ensures(
                predicate,
                (&e,),
                r,
            )),
{
}

/// The condition under which every error is retried.
#[derive(Debug, Clone, Copy)]
pub struct Always;

impl<E> Condition<E> for Always {
    open spec fn answers(&self, error: &E, retry: bool) -> bool {
        retry
    }

    fn should_retry(&mut self, error: &E) -> (retry: bool) {
        true
    }
}

} // verus!
