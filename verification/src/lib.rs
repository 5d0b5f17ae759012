//! Retry strategies for fallible asynchronous operations: backoff schedules
//! and the future that runs an operation under one of them, waiting and
//! trying again until it succeeds, the retry budget is spent, or a predicate
//! says that the error is not worth another attempt.

pub mod action;
pub mod condition;
pub mod duration;
pub mod future;
pub mod strategy;
pub mod trace;

pub use action::Action;
pub use condition::Condition;
pub use future::{Retry, RetryIf};
pub use strategy::Strategy;

use future::DriverState;
use strategy::{FactorType, StrategyView};
use vstd::prelude::*;

verus! {

/// Run the given action, and retry on failure.
///
/// Uses the default retry strategy with exponential backoff and a maximum of 5 retry attempts.
///
/// To customize the retry strategy, take a look at [`Strategy`].
pub fn retry<A: Action>(action: A) -> (retry: Retry<A>)
    ensures
        retry@ == DriverState::start(StrategyView::new(FactorType::Exponential, 1_000_000_000)),
{
    Strategy::default().retry(action)
}

/// Run the given action, and retry on failure if the error satisfies a given condition.
///
/// Uses the default retry strategy with exponential backoff and a maximum of 5 retry attempts.
///
/// To customize the retry strategy, take a look at [`Strategy`].
pub fn retry_if<A: Action, C>(action: A, condition: C) -> (retry: RetryIf<A, C>) where
    C: Condition<A::Error>,

    ensures
        retry@ == DriverState::start(StrategyView::new(FactorType::Exponential, 1_000_000_000)),
        retry.condition() == condition,
{
    Strategy::default().retry_if(action, condition)
}

} // verus!
