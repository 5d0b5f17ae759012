//! The retry driver: the future that owns one in-flight attempt or one
//! in-flight wait and decides, from what becomes of it, what happens next.

use crate::action::Action;
use crate::condition::{Always, Condition};
use crate::strategy::{SequenceState, Strategy, StrategyIter, StrategyView};
use futures_timer::Delay;
use std::future::Future;
use std::pin::Pin;
use std::task::{Context, Poll};
use std::time::Duration;
use vstd::prelude::*;

verus! {

/// `futures_timer::Delay`, a timer future. Nothing inside it is visible here.
#[verifier::external_type_specification]
#[verifier::external_body]
pub struct ExDelay(Delay);

/// `std::pin::Pin`. Nothing inside it is visible here.
#[verifier::external_type_specification]
#[verifier::external_body]
#[verifier::reject_recursive_types(P)]
pub struct ExPin<P>(Pin<P>);

/// `std::task::Context`. Nothing inside it is visible here.
#[verifier::external_type_specification]
#[verifier::external_body]
pub struct ExContext<'a>(Context<'a>);

/// `std::task::Poll`, with its two variants `Ready` and `Pending` in view.
#[verifier::external_type_specification]
#[verifier::reject_recursive_types(T)]
pub struct ExPoll<T>(Poll<T>);

/// Where a retry invocation stands.
#[derive(Debug, Clone, Copy, PartialEq, Eq, Structural)]
pub enum Phase {
    /// An attempt is in flight.
    Attempting,
    /// A delay before the next attempt is in flight.
    Waiting,
    /// The invocation has resolved with the operation's success value.
    ResolvedOk,
    /// The invocation has resolved with the error of the last attempt.
    ResolvedErr,
}

/// What polling the in-flight computation can bring.
#[derive(Debug, Clone, Copy, PartialEq, Eq, Structural)]
pub enum Event {
    /// The computation has not finished.
    Pending,
    /// The attempt resolved with success.
    Succeeded,
    /// The attempt resolved with an error, and `retry` is what the retry
    /// predicate said of that error.
    Failed { retry: bool },
    /// The delay has elapsed.
    Elapsed,
}

/// The state of a retry invocation: its phase and the waits it may still
/// take.
pub struct DriverState {
    pub phase: Phase,
    pub waits: SequenceState,
}

impl DriverState {
    /// A fresh retry invocation: the first attempt is in flight, and no wait
    /// has been taken.
    pub open spec fn start(strategy: StrategyView) -> Self {
        DriverState { phase: Phase::Attempting, waits: SequenceState::start(strategy) }
    }

    /// The invocation has resolved.
    pub open spec fn resolved(self) -> bool {
        self.phase is ResolvedOk || self.phase is ResolvedErr
    }

    /// `event` can come in this phase: an attempt succeeds or fails, a delay
    /// elapses, either may be pending, and nothing comes after resolution.
    pub open spec fn accepts(self, event: Event) -> bool {
        match self.phase {
            Phase::Attempting => !(event is Elapsed),
            Phase::Waiting => event is Pending || event is Elapsed,
            Phase::ResolvedOk | Phase::ResolvedErr => false,
        }
    }

    /// A failed attempt is followed by a wait: the predicate asked for a
    /// retry and the budget is not spent.
    pub open spec fn retries_after(self, event: Event) -> bool {
        event matches Event::Failed { retry } && retry && !self.waits.exhausted()
    }

    /// The state after `event`. A pending computation changes nothing. A
    /// success resolves. A failure takes one wait from the sequence if the
    /// predicate asked for a retry and a wait is left, and resolves with the
    /// error otherwise. An elapsed delay starts the next attempt.
    pub open spec fn next(self, event: Event) -> Self {
        match event {
            Event::Pending => self,
            Event::Succeeded => DriverState { phase: Phase::ResolvedOk, ..self },
            Event::Failed { retry } => if self.retries_after(event) {
                DriverState { phase: Phase::Waiting, waits: self.waits.advance() }
            } else {
                DriverState { phase: Phase::ResolvedErr, ..self }
            },
            Event::Elapsed => DriverState { phase: Phase::Attempting, ..self },
        }
    }

    /// The state after a run of events, taken in order.
    pub open spec fn after(self, events: Seq<Event>) -> Self
        decreases events.len(),
    {
        if events.len() == 0 {
            self
        } else {
            self.after(events.drop_last()).next(events.last())
        }
    }

    /// Each event of the run can come in the phase that the events before it
    /// lead to.
    pub open spec fn admits(self, events: Seq<Event>) -> bool
        decreases events.len(),
    {
        events.len() == 0 || (self.admits(events.drop_last()) && self.after(
            events.drop_last(),
        ).accepts(events.last()))
    }

    /// A bound on the transitions that can still follow without a pending
    /// computation: each wait left allows two, and a delay in flight one.
    pub open spec fn fuel(self) -> nat {
        2 * self.waits.retries + if self.phase is Waiting {
            1nat
        } else {
            0nat
        }
    }
}

/// The events of one poll, which drives an invocation from `before` to
/// `after`. A poll of a resolved invocation takes nothing in and reports
/// `pending`. Any other poll takes in at least one event; each event is
/// admitted; all but the last are progress; and the poll reports `pending`
/// exactly if the last event found the held computation pending.
pub open spec fn polls(
    before: DriverState,
    events: Seq<Event>,
    after: DriverState,
    pending: bool,
) -> bool {
    &&& before.admits(events)
    &&& after == before.after(events)
    &&& forall|i: int| 0 <= i < events.len() - 1 ==> !(#[trigger] events[i] is Pending)
    &&& if before.resolved() {
        events.len() == 0 && pending
    } else {
        events.len() > 0 && (pending <==> events.last() is Pending)
    }
}

/// The retry predicate asked for a retry after every failure of the run.
pub open spec fn always_retried(events: Seq<Event>) -> bool {
    forall|i: int|
        0 <= i < events.len() ==> (#[trigger] events[i] matches Event::Failed { retry } ==> retry)
}

/// Each verdict of the run is an answer that `condition` may give for some
/// error.
pub open spec fn verdicts<E, C: Condition<E>>(condition: C, events: Seq<Event>) -> bool {
    forall|i: int|
        0 <= i < events.len() ==> (#[trigger] events[i] matches Event::Failed { retry }
            ==> exists|e: E| #[trigger] condition.answers(&e, retry))
}

/// The run ends with a failed attempt, and its verdict is an answer that
/// `condition` may give for `err`.
pub open spec fn judged<E, C: Condition<E>>(condition: C, events: Seq<Event>, err: E) -> bool {
    events.len() > 0 && (events.last() matches Event::Failed { retry } && condition.answers(
        &err,
        retry,
    ))
}

/// Under a condition that can only say yes, every failure of a run was
/// followed by the verdict to retry.
pub proof fn lemma_unconditional_verdicts<E, C: Condition<E>>(condition: C, events: Seq<Event>)
    requires
        verdicts(condition, events),
        forall|e: E, r: bool| #[trigger] condition.answers(&e, r) ==> r,
    ensures
        always_retried(events),
{
}

/// Moves a future to the heap and pins it there, with `Box::pin`, so that it
/// can be polled. Nothing is claimed of the result.
#[verifier::external_body]
fn pin_future<F: Future>(future: F) -> Pin<Box<F>> {
    Box::pin(future)
}

/// Polls a pinned future once, with `Future::poll`. Nothing is claimed of
/// what comes back: it is for the future to say whether it has finished.
#[verifier::external_body]
fn poll_future<F: Future>(future: &mut Pin<Box<F>>, ctx: &mut Context<'_>) -> Poll<F::Output> {
    future.as_mut().poll(ctx)
}

/// Schedules a timer with `futures_timer::Delay::new`, which fires once
/// `duration` has passed. The call does not panic: where the timer thread of
/// the outside crate cannot be started, it hands out a timer that is inert.
/// Nothing is claimed of the result.
#[verifier::external_body]
fn new_delay(duration: Duration) -> Delay {
    Delay::new(duration)
}

/// Polls a timer once, with the `Future::poll` of `futures_timer::Delay`.
/// Nothing is claimed of what comes back. The call panics if the timer is
/// inert or the timer thread of the outside crate has gone away.
#[verifier::external_body]
fn poll_delay(delay: &mut Delay, ctx: &mut Context<'_>) -> Poll<()> {
    Pin::new(delay).poll(ctx)
}

/// The computation that a retry invocation holds.
enum RetryState<A: Action> {
    Running(Pin<Box<A::Future>>),
    Sleeping(Delay),
    ResolvedOk,
    ResolvedErr,
}

/// What polling the held computation brought.
enum RetryFuturePoll<A: Action> {
    Running(Poll<Result<A::Item, A::Error>>),
    Sleeping(Poll<()>),
    Resolved,
}

impl<A: Action> RetryState<A> {
    /// The phase that goes with the computation held.
    spec fn phase(&self) -> Phase {
        match self {
            RetryState::Running(_) => Phase::Attempting,
            RetryState::Sleeping(_) => Phase::Waiting,
            RetryState::ResolvedOk => Phase::ResolvedOk,
            RetryState::ResolvedErr => Phase::ResolvedErr,
        }
    }

    /// Polls whichever computation is held. The phase stays as it is, and
    /// what comes back is of the phase's kind.
    fn poll(&mut self, ctx: &mut Context<'_>) -> (polled: RetryFuturePoll<A>)
        ensures
            final(self).phase() == old(self).phase(),
            polled is Running <==> old(self).phase() is Attempting,
            polled is Sleeping <==> old(self).phase() is Waiting,
    {
        match self {
            RetryState::Running(future) => RetryFuturePoll::Running(poll_future(future, ctx)),
            RetryState::Sleeping(future) => RetryFuturePoll::Sleeping(poll_delay(future, ctx)),
            _ => RetryFuturePoll::Resolved,
        }
    }
}

/// Future that drives multiple attempts at an action via a retry strategy. Retries are only attempted if
/// the `Error` returned by the future satisfies a given condition.
pub struct RetryIf<A, C> where A: Action, C: Condition<A::Error> {
    strategy_iter: StrategyIter,
    state: RetryState<A>,
    action: A,
    condition: C,
}

impl<A, C> Unpin for RetryIf<A, C> where A: Action, C: Condition<A::Error> {

}

impl<A, C> View for RetryIf<A, C> where A: Action, C: Condition<A::Error> {
    type V = DriverState;

    closed spec fn view(&self) -> DriverState {
        DriverState { phase: self.state.phase(), waits: self.strategy_iter@ }
    }
}

/// Hands out the value behind a pin, with `Pin::get_mut`, which is there for
/// values that are `Unpin`. Nothing is claimed of the result.
#[verifier::external_body]
fn unpinned<'a, T: Unpin>(pinned: Pin<&'a mut T>) -> &'a mut T {
    pinned.get_mut()
}

impl<A, C> RetryIf<A, C> where A: Action, C: Condition<A::Error> {
    /// The condition of this invocation.
    pub closed spec fn condition(&self) -> C {
        self.condition
    }

    /// The condition of this invocation can only say yes.
    pub open spec fn unconditional(&self) -> bool {
        forall|e: A::Error, r: bool| #[trigger] self.condition().answers(&e, r) ==> r
    }

    /// What one poll owes of its events. They lead from the state `before`
    /// the poll to this one, as `polls` says. Each verdict among them is an
    /// answer that the condition may give for some error, and the verdict on
    /// an error that the poll hands back is an answer for that error. Under
    /// a condition that can only say yes, every failure was to be retried.
    pub open spec fn polled_from(
        self,
        before: Self,
        events: Seq<Event>,
        polled: Poll<Result<A::Item, A::Error>>,
    ) -> bool {
        &&& polls(before@, events, self@, polled is Pending)
        &&& verdicts(before.condition(), events)
        &&& polled matches Poll::Ready(Err(err)) ==> judged(before.condition(), events, err)
        &&& before.unconditional() ==> always_retried(events)
    }

    /// The condition of this invocation gives no answer that `before` could
    /// not give.
    pub open spec fn answers_within(&self, before: C) -> bool {
        forall|e: A::Error, r: bool| #[trigger]
            self.condition().answers(&e, r) ==> before.answers(&e, r)
    }

    /// Creates a new retry future. The action is run once, at once: the
    /// first attempt is never delayed.
    pub fn new(strategy: &Strategy, action: A, condition: C) -> (retry: RetryIf<A, C>)
        ensures
            retry@ == DriverState::start(strategy@),
            retry.condition() == condition,
    {
        let mut action = action;
        let future = action.run();
        RetryIf {
            strategy_iter: strategy.iter(),
            state: RetryState::Running(pin_future(future)),
            action: action,
            condition: condition,
        }
    }

    /// Where the invocation stands.
    pub fn phase(&self) -> (phase: Phase)
        ensures
            phase == self@.phase,
    {
        match self.state {
            RetryState::Running(_) => Phase::Attempting,
            RetryState::Sleeping(_) => Phase::Waiting,
            RetryState::ResolvedOk => Phase::ResolvedOk,
            RetryState::ResolvedErr => Phase::ResolvedErr,
        }
    }

    /// The step after a delay has elapsed: runs the action once more and
    /// holds the new attempt.
    fn attempt(&mut self)
        requires
            old(self)@.accepts(Event::Elapsed),
        ensures
            final(self)@ == old(self)@.next(Event::Elapsed),
            final(self).condition() == old(self).condition(),
    {
        let future = self.action.run();
        self.state = RetryState::Running(pin_future(future));
    }

    /// The step after a failed attempt that is to be retried: takes the next
    /// wait from the sequence and schedules a delay of that length, or
    /// resolves with the error if no wait is left.
    fn retry(&mut self, err: A::Error) -> (resolved: Option<A::Error>)
        requires
            old(self)@.accepts(Event::Failed { retry: true }),
        ensures
            final(self)@ == old(self)@.next(Event::Failed { retry: true }),
            final(self).condition() == old(self).condition(),
            resolved == if old(self)@.waits.exhausted() {
                Some(err)
            } else {
                None
            },
    {
        match self.strategy_iter.next() {
            None => {
                self.state = RetryState::ResolvedErr;
                Some(err)
            },
            Some(duration) => {
                self.state = RetryState::Sleeping(new_delay(duration));
                None
            },
        }
    }

    /// The step after a failed attempt, given what the retry predicate said
    /// of its error. Hands the error back if the invocation resolves with
    /// it; otherwise a delay is in flight.
    pub fn settle(&mut self, err: A::Error, retry: bool) -> (resolved: Option<A::Error>)
        requires
            old(self)@.accepts(Event::Failed { retry }),
        ensures
            final(self)@ == old(self)@.next(Event::Failed { retry }),
            final(self).condition() == old(self).condition(),
            resolved == if old(self)@.retries_after(Event::Failed { retry }) {
                None
            } else {
                Some(err)
            },
    {
        if retry {
            self.retry(err)
        } else {
            self.state = RetryState::ResolvedErr;
            Some(err)
        }
    }

    /// The step after an attempt has resolved with `outcome`, where `retry`
    /// is what the retry predicate said of its error, if it failed. A
    /// success resolves the invocation with its value. A failure is settled
    /// by the verdict and the budget. Hands back what the invocation resolves
    /// with, or nothing if a delay is in flight.
    pub fn conclude(&mut self, outcome: Result<A::Item, A::Error>, retry: bool) -> (resolved:
        Option<Result<A::Item, A::Error>>)
        requires
            old(self)@.phase is Attempting,
        ensures
            final(self).condition() == old(self).condition(),
            outcome matches Ok(item) ==> resolved == Some(Ok::<A::Item, A::Error>(item))
                && final(self)@ == old(self)@.next(Event::Succeeded),
            outcome matches Err(err) ==> final(self)@ == old(self)@.next(Event::Failed { retry })
                && resolved == (if old(self)@.retries_after(Event::Failed { retry }) {
                None
            } else {
                Some(Err::<A::Item, A::Error>(err))
            }),
    {
        match outcome {
            Ok(item) => {
                self.state = RetryState::ResolvedOk;
                Some(Ok(item))
            },
            Err(err) => match self.settle(err, retry) {
                Some(err) => Some(Err(err)),
                None => None,
            },
        }
    }

    /// Polls the invocation: drives it as far as it goes until the held
    /// computation is pending or the invocation resolves.
    ///
    /// Whatever the attempts, the predicate and the timers report, the
    /// invocation moves by events that its phase admits, and each verdict
    /// among them is an answer of the condition. It is resolved exactly when
    /// `Ready` comes back, with success for `Ok` and with the error of the
    /// last attempt for `Err`; what a resolved attempt brought goes through
    /// [`RetryIf::conclude`], which says what is handed back for each
    /// outcome. Once resolved, the invocation stays as it is and reports
    /// `Pending`.
    pub fn advance(&mut self, ctx: &mut Context<'_>) -> (polled: Poll<Result<A::Item, A::Error>>)
        ensures
            exists|events: Seq<Event>| #[trigger] final(self).polled_from(*old(self), events, polled),
            final(self).answers_within(old(self).condition()),
            old(self)@.resolved() ==> polled is Pending && final(self)@ == old(self)@,
            !old(self)@.resolved() ==> (polled is Pending <==> !final(self)@.resolved()),
            polled matches Poll::Ready(Ok(_)) ==> final(self)@.phase is ResolvedOk,
            polled matches Poll::Ready(Err(_)) ==> final(self)@.phase is ResolvedErr,
    {
        let ghost mut events: Seq<Event> = Seq::empty();
        loop
            invariant
                old(self)@.admits(events),
                self@ == old(self)@.after(events),
                forall|i: int| 0 <= i < events.len() ==> !(#[trigger] events[i] is Pending),
                old(self)@.resolved() ==> events.len() == 0,
                !old(self)@.resolved() ==> !self@.resolved(),
                verdicts(old(self).condition(), events),
                self.answers_within(old(self).condition()),
            decreases self@.fuel(),
        {
            let ghost seen = events;
            let ghost condition = self.condition();
            let held = self.state.poll(ctx);
            assert(self.condition() == condition);
            assert(self.answers_within(old(self).condition()));
            match held {
                RetryFuturePoll::Resolved => {
                    let polled = Poll::Pending;
                    proof {
                        self.lemma_polled(*old(self), events, polled);
                    }
                    return polled;
                },
                RetryFuturePoll::Running(Poll::Pending) => {
                    let polled = Poll::Pending;
                    proof {
                        events = seen.push(Event::Pending);
                        assert(events.drop_last() == seen);
                        self.lemma_polled(*old(self), events, polled);
                    }
                    return polled;
                },
                RetryFuturePoll::Running(Poll::Ready(outcome)) => {
                    let retry = match &outcome {
                        Ok(_) => false,
                        Err(err) => self.condition.should_retry(err),
                    };
                    let ghost taken = outcome;
                    let ghost event = match taken {
                        Ok(_) => Event::Succeeded,
                        Err(_) => Event::Failed { retry },
                    };
                    let resolved = self.conclude(outcome, retry);
                    proof {
                        events = seen.push(event);
                        assert(events.drop_last() == seen);
                        if let Err(err) = taken {
                            assert(condition.answers(&err, retry));
                            assert(old(self).condition().answers(&err, retry));
                        }
                    }
                    if let Some(result) = resolved {
                        let polled = Poll::Ready(result);
                        proof {
                            self.lemma_polled(*old(self), events, polled);
                        }
                        return polled;
                    }
                },
                RetryFuturePoll::Sleeping(Poll::Pending) => {
                    let polled = Poll::Pending;
                    proof {
                        events = seen.push(Event::Pending);
                        assert(events.drop_last() == seen);
                        self.lemma_polled(*old(self), events, polled);
                    }
                    return polled;
                },
                RetryFuturePoll::Sleeping(Poll::Ready(_)) => {
                    self.attempt();
                    proof {
                        events = seen.push(Event::Elapsed);
                        assert(events.drop_last() == seen);
                    }
                },
            }
        }
    }

    /// What the loop of a poll holds when it leaves is what the poll owes.
    proof fn lemma_polled(
        self,
        before: Self,
        events: Seq<Event>,
        polled: Poll<Result<A::Item, A::Error>>,
    )
        requires
            polls(before@, events, self@, polled is Pending),
            verdicts(before.condition(), events),
            polled matches Poll::Ready(Err(err)) ==> judged(before.condition(), events, err),
        ensures
            self.polled_from(before, events, polled),
    {
        if before.unconditional() {
            lemma_unconditional_verdicts(before.condition(), events);
        }
    }
}

impl<A, C> Future for RetryIf<A, C> where A: Action, C: Condition<A::Error> {
    type Output = Result<A::Item, A::Error>;

    fn poll(self: Pin<&mut Self>, ctx: &mut Context<'_>) -> Poll<Self::Output> {
        let this = unpinned(self);
        this.advance(ctx)
    }
}

/// Future that drives multiple attempts at an action via a retry strategy.
pub struct Retry<A> where A: Action {
    retry_if: RetryIf<A, Always>,
}

impl<A> Unpin for Retry<A> where A: Action {

}

impl<A: Action> View for Retry<A> {
    type V = DriverState;

    closed spec fn view(&self) -> DriverState {
        self.retry_if@
    }
}

impl<A: Action> Retry<A> {
    /// Creates a new retry future, which retries on every error.
    pub fn new(strategy: &Strategy, action: A) -> (retry: Retry<A>)
        ensures
            retry@ == DriverState::start(strategy@),
    {
        Retry { retry_if: RetryIf::new(strategy, action, Always) }
    }

    /// Where the invocation stands.
    pub fn phase(&self) -> (phase: Phase)
        ensures
            phase == self@.phase,
    {
        self.retry_if.phase()
    }

    /// Polls the invocation, as [`RetryIf::advance`] does.
    pub fn advance(&mut self, ctx: &mut Context<'_>) -> (polled: Poll<Result<A::Item, A::Error>>)
        ensures
            exists|events: Seq<Event>| #[trigger]
                polls(old(self)@, events, final(self)@, polled is Pending) && always_retried(
                    events,
                ),
            old(self)@.resolved() ==> polled is Pending && final(self)@ == old(self)@,
            !old(self)@.resolved() ==> (polled is Pending <==> !final(self)@.resolved()),
            polled matches Poll::Ready(Ok(_)) ==> final(self)@.phase is ResolvedOk,
            polled matches Poll::Ready(Err(_)) ==> final(self)@.phase is ResolvedErr,
    {
        let polled = self.retry_if.advance(ctx);
        proof {
            let condition = old(self).retry_if.condition();
            let events = choose|events: Seq<Event>| #[trigger]
                self.retry_if.polled_from(old(self).retry_if, events, polled);
            assert(forall|e: A::Error, r: bool| #[trigger] condition.answers(&e, r) ==> r);
            assert(polls(old(self)@, events, self@, polled is Pending) && always_retried(events));
        }
        polled
    }
}

impl<A: Action> Future for Retry<A> {
    type Output = Result<A::Item, A::Error>;

    fn poll(self: Pin<&mut Self>, ctx: &mut Context<'_>) -> Poll<Self::Output> {
        let this = unpinned(self);
        this.advance(ctx)
    }
}

} // verus!
