//! Runs of a retry invocation as traces of events, and what holds of every
//! run that the driver admits.

use crate::future::{always_retried, DriverState, Event};
use crate::strategy::StrategyView;
use vstd::prelude::*;

verus! {

/// The number of delays that elapsed in a run. Each one is followed by a new
/// invocation of the operation.
pub open spec fn elapsed(events: Seq<Event>) -> nat
    decreases events.len(),
{
    if events.len() == 0 {
        0
    } else {
        elapsed(events.drop_last()) + if events.last() is Elapsed {
            1nat
        } else {
            0nat
        }
    }
}

/// The number of attempts that failed in a run.
pub open spec fn failures(events: Seq<Event>) -> nat
    decreases events.len(),
{
    if events.len() == 0 {
        0
    } else {
        failures(events.drop_last()) + if events.last() is Failed {
            1nat
        } else {
            0nat
        }
    }
}

/// The number of times the operation is invoked in a run: once when the
/// invocation begins, and once more after each delay that elapsed.
pub open spec fn attempts(events: Seq<Event>) -> nat {
    1 + elapsed(events)
}

/// One if a delay is in flight, zero otherwise.
pub open spec fn waiting(state: DriverState) -> nat {
    if state.phase is Waiting {
        1
    } else {
        0
    }
}

/// The books of a run, which balance after every event. Each wait of the
/// budget is either still left, or in flight, or has elapsed and led to a new
/// attempt. Each failure was followed by a wait, but for a last one that
/// resolved the invocation. Nothing but the budget and the generator of the
/// sequence changes. An invocation that gave up although the predicate
/// always asked for a retry has spent its budget.
pub proof fn lemma_run_accounts(strategy: StrategyView, events: Seq<Event>)
    requires
        DriverState::start(strategy).admits(events),
    ensures
        ({
            let end = DriverState::start(strategy).after(events);
            &&& end.waits.retries + waiting(end) + elapsed(events) == strategy.max_retries
            &&& failures(events) == elapsed(events) + waiting(end) + if end.phase is ResolvedErr {
                1nat
            } else {
                0nat
            }
            &&& end.phase is ResolvedOk <==> events.len() > 0 && events.last() is Succeeded
            &&& end.phase is ResolvedErr ==> events.len() > 0 && events.last() is Failed
            &&& end.phase is ResolvedErr && always_retried(events) ==> end.waits.exhausted()
        }),
    decreases events.len(),
{
    if events.len() > 0 {
        let before = events.drop_last();
        lemma_run_accounts(strategy, before);
        assert(forall|i: int| 0 <= i < before.len() ==> before[i] == events[i]);
        if always_retried(events) {
            assert(events[events.len() - 1] == events.last());
        }
    }
}

/// With a budget of zero retries the operation is invoked exactly once,
/// whatever comes of it.
pub proof fn lemma_no_budget_one_attempt(strategy: StrategyView, events: Seq<Event>)
    requires
        strategy.max_retries == 0,
        DriverState::start(strategy).admits(events),
    ensures
        attempts(events) == 1,
{
    lemma_run_accounts(strategy, events);
}

/// No run invokes the operation more often than once and once more for each
/// retry in the budget.
pub proof fn lemma_attempts_within_budget(strategy: StrategyView, events: Seq<Event>)
    requires
        DriverState::start(strategy).admits(events),
    ensures
        attempts(events) <= strategy.max_retries + 1,
{
    lemma_run_accounts(strategy, events);
}

/// Where the operation always fails and every failure is to be retried, the
/// invocation does not resolve before the budget is spent: it resolves with
/// the error of the attempt that failed last, after exactly `max_retries + 1`
/// invocations, each of which failed.
pub proof fn lemma_always_failing_spends_budget(strategy: StrategyView, events: Seq<Event>)
    requires
        DriverState::start(strategy).admits(events),
        DriverState::start(strategy).after(events).resolved(),
        always_retried(events),
        forall|i: int| 0 <= i < events.len() ==> !(#[trigger] events[i] is Succeeded),
    ensures
        DriverState::start(strategy).after(events).phase is ResolvedErr,
        events.last() is Failed,
        attempts(events) == strategy.max_retries + 1,
        failures(events) == strategy.max_retries + 1,
{
    lemma_run_accounts(strategy, events);
    if events.len() > 0 {
        assert(!(events[events.len() - 1] is Succeeded));
    }
}

/// Where every failure is to be retried and no more attempts fail than the
/// budget has retries, the invocation does not give up; and once an attempt
/// succeeds after `k` failures, the invocation has resolved with success
/// and the operation has been invoked exactly `k + 1` times.
pub proof fn lemma_success_after_failures(strategy: StrategyView, events: Seq<Event>)
    requires
        DriverState::start(strategy).admits(events),
        always_retried(events),
        failures(events) <= strategy.max_retries,
    ensures
        !(DriverState::start(strategy).after(events).phase is ResolvedErr),
        events.len() > 0 && events.last() is Succeeded ==> DriverState::start(strategy).after(
            events,
        ).phase is ResolvedOk && attempts(events) == failures(events) + 1,
{
    lemma_run_accounts(strategy, events);
}

/// Where the retry predicate says no to the first error, the invocation
/// resolves with that error there and then: the failure is the last event of
/// the run, the operation has been invoked a single time, whatever the
/// budget, and no wait has been taken from the sequence.
pub proof fn lemma_refused_first_error(strategy: StrategyView, events: Seq<Event>, first: int)
    requires
        DriverState::start(strategy).admits(events),
        0 <= first < events.len(),
        events[first] == (Event::Failed { retry: false }),
        forall|i: int| 0 <= i < first ==> !(#[trigger] events[i] is Failed),
    ensures
        first == events.len() - 1,
        DriverState::start(strategy).after(events).phase is ResolvedErr,
        DriverState::start(strategy).after(events).waits.retries == strategy.max_retries,
        attempts(events) == 1,
{
    let start = DriverState::start(strategy);
    let head = events.take(first + 1);
    let tail = events.skip(first + 1);
    assert(events == head + tail);
    lemma_runs_compose(start, head, tail);
    lemma_run_accounts(strategy, head);
    lemma_count_failures(head.drop_last());
    assert(head.last() == events[first]);
    if tail.len() > 0 {
        lemma_admits_first(start.after(head), tail);
    }
    assert(head + tail == head);
}

/// A run without a failed attempt counts no failure.
proof fn lemma_count_failures(events: Seq<Event>)
    requires
        forall|i: int| 0 <= i < events.len() ==> !(#[trigger] events[i] is Failed),
    ensures
        failures(events) == 0,
    decreases events.len(),
{
    if events.len() > 0 {
        assert(!(events[events.len() - 1] is Failed));
        lemma_count_failures(events.drop_last());
    }
}

/// An admitted run begins with an event that the state it starts from
/// accepts.
proof fn lemma_admits_first(state: DriverState, events: Seq<Event>)
    requires
        state.admits(events),
        events.len() > 0,
    ensures
        state.accepts(events[0]),
    decreases events.len(),
{
    if events.len() > 1 {
        lemma_admits_first(state, events.drop_last());
    }
}

/// Two runs in a row are one run: the events of the second are admitted
/// after the first exactly if the whole is admitted, they lead to the same
/// state, and the counts add up.
pub proof fn lemma_runs_compose(state: DriverState, first: Seq<Event>, second: Seq<Event>)
    ensures
        state.after(first + second) == state.after(first).after(second),
        state.admits(first + second) <==> state.admits(first) && state.after(first).admits(second),
        elapsed(first + second) == elapsed(first) + elapsed(second),
        failures(first + second) == failures(first) + failures(second),
    decreases second.len(),
{
    if second.len() == 0 {
        assert(first + second == first);
    } else {
        lemma_runs_compose(state, first, second.drop_last());
        assert((first + second).drop_last() == first + second.drop_last());
        assert((first + second).last() == second.last());
    }
}

/// A pending computation changes nothing, and nothing follows resolution.
pub proof fn lemma_idle_and_final(state: DriverState, event: Event)
    ensures
        state.next(Event::Pending) == state,
        state.resolved() ==> !state.accepts(event),
        state.accepts(event) && !(event is Pending) ==> state.next(event).phase != state.phase,
{
}

} // verus!
