//! Backoff schedules: the multiplier generators and the strategy built on them.

mod exponential_backoff;
mod fibonacci_backoff;
mod fixed_interval;
mod jitter;
mod schedule;

pub use self::exponential_backoff::{
    exponential_factor, lemma_exponential_nth, ExponentialBackoff, ExponentialState,
};
pub use self::fibonacci_backoff::{
    fib, fibonacci_factor, lemma_fib_fits, lemma_fib_grows, lemma_fib_monotonic,
    lemma_fibonacci_nth, FibonacciBackoff, FibonacciState,
};
pub use self::fixed_interval::FixedInterval;
pub use self::jitter::{
    jitter, jitter_by, jitter_nanos, jittered_nanos, lemma_jitter_bounds, SAMPLE_UNIT,
};
pub use self::schedule::{
    factor_at, lemma_configuration, lemma_exponential_wait, lemma_fibonacci_wait,
    lemma_fixed_wait, lemma_sequence_after, lemma_wait_bounds, wait_at,
};

use self::jitter::random_sample;
use crate::action::Action;
use crate::condition::Condition;
use crate::duration::{
    duration_from_nanos, duration_nanos, lemma_duration_bounded, nanos_of, MAX_NANOS,
};
use crate::future::{DriverState, Retry, RetryIf};
use std::time::Duration;
use vstd::prelude::*;

verus! {

/// The shape of a backoff: how the multiplier of the base delay grows from
/// one wait to the next.
#[derive(Debug, Clone, Copy)]
pub enum FactorType {
    Exponential,
    Fibonacci,
    Fixed,
}

/// What a [`Strategy`] is made of, with durations as nanosecond counts.
pub struct StrategyView {
    pub factor: FactorType,
    pub delay: nat,
    pub max_delay: Option<nat>,
    pub max_retries: nat,
    pub jitter: bool,
}

impl StrategyView {
    /// The strategy that the constructors make: five retries, no cap on the
    /// delay, no jitter.
    pub open spec fn new(factor: FactorType, delay: nat) -> Self {
        StrategyView { factor, delay, max_delay: None, max_retries: 5, jitter: false }
    }

    /// The delays are lengths that a duration can have.
    pub open spec fn wf(self) -> bool {
        &&& self.delay <= MAX_NANOS
        &&& self.max_delay matches Some(max) ==> max <= MAX_NANOS
    }

    /// This strategy with its delays capped at `max_delay`.
    pub open spec fn with_max_delay(self, max_delay: nat) -> Self {
        StrategyView { max_delay: Some(max_delay), ..self }
    }

    /// This strategy with a budget of `max_retries` retries.
    pub open spec fn with_max_retries(self, max_retries: nat) -> Self {
        StrategyView { max_retries, ..self }
    }

    /// This strategy with jitter switched on or off.
    pub open spec fn with_jitter(self, jitter: bool) -> Self {
        StrategyView { jitter, ..self }
    }
}

/// Configurable retry strategy.
///
/// `Strategy::default()` is an exponential backoff with a delay of 1 second
/// and a maximum of 5 retries.
#[derive(Debug)]
pub struct Strategy {
    factor: FactorType,
    delay: Duration,
    max_delay: Option<Duration>,
    max_retries: usize,
    jitter: bool,
}

impl View for Strategy {
    type V = StrategyView;

    closed spec fn view(&self) -> StrategyView {
        StrategyView {
            factor: self.factor,
            delay: duration_nanos(self.delay),
            max_delay: match self.max_delay {
                Some(max_delay) => Some(duration_nanos(max_delay)),
                None => None,
            },
            max_retries: self.max_retries as nat,
            jitter: self.jitter,
        }
    }
}

impl Default for Strategy {
    fn default() -> (strategy: Strategy)
        ensures
            strategy@ == StrategyView::new(FactorType::Exponential, 1_000_000_000),
            strategy@.wf(),
    {
        Strategy {
            factor: FactorType::Exponential,
            delay: Duration::new(1, 0),
            max_delay: None,
            max_retries: 5,
            jitter: false,
        }
    }
}

impl Strategy {
    /// The delays of every strategy are lengths that a duration can have.
    pub proof fn lemma_wf(&self)
        ensures
            self@.wf(),
    {
        lemma_duration_bounded(self.delay);
        if let Some(max_delay) = self.max_delay {
            lemma_duration_bounded(max_delay);
        }
    }

    /// Creates a retry strategy driven by exponential back-off.
    ///
    /// The specified duration will be multiplied by `2^n`, where `n` is
    /// the number of failed attempts.
    pub fn exponential(delay: Duration) -> (strategy: Strategy)
        ensures
            strategy@ == StrategyView::new(FactorType::Exponential, duration_nanos(delay)),
            strategy@.wf(),
    {
        Strategy::new(FactorType::Exponential, delay)
    }

    /// Creates a retry strategy driven by a fibonacci back-off.
    ///
    /// The specified duration will be multiplied by `fib(n)`, where `n` is
    /// the number of failed attempts.
    pub fn fibonacci(delay: Duration) -> (strategy: Strategy)
        ensures
            strategy@ == StrategyView::new(FactorType::Fibonacci, duration_nanos(delay)),
            strategy@.wf(),
    {
        Strategy::new(FactorType::Fibonacci, delay)
    }

    /// Creates a retry strategy driven by a fixed delay.
    pub fn fixed(delay: Duration) -> (strategy: Strategy)
        ensures
            strategy@ == StrategyView::new(FactorType::Fixed, duration_nanos(delay)),
            strategy@.wf(),
    {
        Strategy::new(FactorType::Fixed, delay)
    }

    /// Creates a strategy of the given shape with the default budget of five
    /// retries, no maximum delay and no jitter.
    pub fn new(factor: FactorType, delay: Duration) -> (strategy: Strategy)
        ensures
            strategy@ == StrategyView::new(factor, duration_nanos(delay)),
            strategy@.wf(),
    {
        proof {
            lemma_duration_bounded(delay);
        }
        Strategy { factor: factor, delay: delay, max_delay: None, max_retries: 5, jitter: false }
    }

    /// Sets the maximum delay between two attempts.
    ///
    /// By default there is no maximum.
    pub fn with_max_delay(self, duration: Duration) -> (strategy: Strategy)
        ensures
            strategy@ == self@.with_max_delay(duration_nanos(duration)),
            strategy@.wf(),
    {
        proof {
            self.lemma_wf();
            lemma_duration_bounded(duration);
        }
        let mut strategy = self;
        strategy.max_delay = Some(duration);
        strategy
    }

    /// Sets the maximum number of retry attempts.
    ///
    /// By default a retry will be attempted 5 times before giving up.
    pub fn with_max_retries(self, retries: usize) -> (strategy: Strategy)
        ensures
            strategy@ == self@.with_max_retries(retries as nat),
            strategy@.wf(),
    {
        proof {
            self.lemma_wf();
        }
        let mut strategy = self;
        strategy.max_retries = retries;
        strategy
    }

    /// Enables or disables jitter on the delay.
    ///
    /// Jitter will introduce a random variance to the retry strategy,
    /// which can be helpful to mitigate the "Thundering Herd" problem.
    pub fn with_jitter(self, jitter: bool) -> (strategy: Strategy)
        ensures
            strategy@ == self@.with_jitter(jitter),
            strategy@.wf(),
    {
        proof {
            self.lemma_wf();
        }
        let mut strategy = self;
        strategy.jitter = jitter;
        strategy
    }

    /// Run the given action, and use this strategy to retry on failure.
    pub fn retry<A: Action>(&self, action: A) -> (retry: Retry<A>)
        ensures
            retry@ == DriverState::start(self@),
    {
        Retry::new(self, action)
    }

    /// Run the given action, and use this strategy to retry on failure if the error satisfies a given condition.
    pub fn retry_if<A: Action, C>(&self, action: A, condition: C) -> (retry: RetryIf<A, C>) where
        C: Condition<A::Error>,

        ensures
            retry@ == DriverState::start(self@),
            retry.condition() == condition,
    {
        RetryIf::new(self, action, condition)
    }

    /// Starts the sequence of waits that this strategy allows: one wait for
    /// each retry in its budget. The strategy itself is left as it was and can
    /// start any number of sequences.
    pub fn iter(&self) -> (sequence: StrategyIter)
        ensures
            sequence@ == SequenceState::start(self@),
            self@.wf(),
            sequence@.wf(),
    {
        proof {
            self.lemma_wf();
        }
        let factor_iter = match self.factor {
            FactorType::Exponential => FactorIter::Exponential(ExponentialBackoff::new()),
            FactorType::Fibonacci => FactorIter::Fibonacci(FibonacciBackoff::new()),
            FactorType::Fixed => FactorIter::Fixed(FixedInterval::new()),
        };
        StrategyIter {
            factor_iter: factor_iter,
            delay: self.delay,
            max_delay: self.max_delay,
            retries: self.max_retries,
            jitter: self.jitter,
        }
    }
}

/// What a [`FactorIter`] holds: the state of the generator it runs.
pub enum FactorState {
    Exponential(ExponentialState),
    Fibonacci(FibonacciState),
    Fixed,
}

impl FactorState {
    /// The state of a fresh generator of the given shape.
    pub open spec fn start(factor: FactorType) -> Self {
        match factor {
            FactorType::Exponential => FactorState::Exponential(ExponentialState::start()),
            FactorType::Fibonacci => FactorState::Fibonacci(FibonacciState::start()),
            FactorType::Fixed => FactorState::Fixed,
        }
    }

    /// The multiplier that is yielded next.
    pub open spec fn current(self) -> nat {
        match self {
            FactorState::Exponential(state) => state.curr,
            FactorState::Fibonacci(state) => state.curr,
            FactorState::Fixed => 1,
        }
    }

    /// The state after one more multiplier has been yielded.
    pub open spec fn advance(self) -> Self {
        match self {
            FactorState::Exponential(state) => FactorState::Exponential(state.advance()),
            FactorState::Fibonacci(state) => FactorState::Fibonacci(state.advance()),
            FactorState::Fixed => FactorState::Fixed,
        }
    }
}

/// One of the three multiplier generators.
pub enum FactorIter {
    Exponential(ExponentialBackoff),
    Fibonacci(FibonacciBackoff),
    Fixed(FixedInterval),
}

impl View for FactorIter {
    type V = FactorState;

    open spec fn view(&self) -> FactorState {
        match self {
            FactorIter::Exponential(iter) => FactorState::Exponential(iter@),
            FactorIter::Fibonacci(iter) => FactorState::Fibonacci(iter@),
            FactorIter::Fixed(_) => FactorState::Fixed,
        }
    }
}

impl FactorIter {
    /// Yields the current multiplier of the generator and moves it on. The
    /// sequence never ends.
    pub fn next(&mut self) -> (factor: Option<u32>)
        ensures
            factor matches Some(f) && f == old(self)@.current(),
            final(self)@ == old(self)@.advance(),
    {
        match self {
            FactorIter::Exponential(iter) => iter.next(),
            FactorIter::Fibonacci(iter) => iter.next(),
            FactorIter::Fixed(iter) => iter.next(),
        }
    }
}

/// A delay held at the cap, if there is one.
pub open spec fn capped(nanos: nat, max_delay: Option<nat>) -> nat {
    match max_delay {
        Some(max) => if nanos <= max {
            nanos
        } else {
            max
        },
        None => nanos,
    }
}

/// The base delay multiplied by a factor, held at `MAX_NANOS` if the product
/// is longer than that.
pub open spec fn scaled_nanos(delay: nat, factor: nat) -> nat {
    if delay * factor <= MAX_NANOS {
        delay * factor
    } else {
        MAX_NANOS as nat
    }
}

/// What a [`StrategyIter`] holds: the generator state, the configuration
/// taken over from the strategy, and the number of waits it may still yield.
pub struct SequenceState {
    pub factors: FactorState,
    pub delay: nat,
    pub max_delay: Option<nat>,
    pub retries: nat,
    pub jitter: bool,
}

impl SequenceState {
    /// The sequence as `Strategy::iter` starts it.
    pub open spec fn start(strategy: StrategyView) -> Self {
        SequenceState {
            factors: FactorState::start(strategy.factor),
            delay: strategy.delay,
            max_delay: strategy.max_delay,
            retries: strategy.max_retries,
            jitter: strategy.jitter,
        }
    }

    /// The delays are lengths that a duration can have.
    pub open spec fn wf(self) -> bool {
        &&& self.delay <= MAX_NANOS
        &&& self.max_delay matches Some(max) ==> max <= MAX_NANOS
    }

    /// No wait is left: the retry budget is spent.
    pub open spec fn exhausted(self) -> bool {
        self.retries == 0
    }

    /// The next wait before jitter and cap: the base delay times the current
    /// multiplier.
    pub open spec fn expected(self) -> nat {
        scaled_nanos(self.delay, self.factors.current())
    }

    /// The next wait, in nanoseconds, given the sample that jitter draws. The
    /// multiplication comes first, then jitter, then the cap. Without jitter
    /// the sample plays no part.
    pub open spec fn wait(self, sample: u32) -> nat {
        capped(
            if self.jitter {
                jittered_nanos(self.expected(), sample)
            } else {
                self.expected()
            },
            self.max_delay,
        )
    }

    /// The sequence after it has yielded one wait.
    pub open spec fn advance(self) -> Self {
        SequenceState {
            factors: self.factors.advance(),
            retries: if self.retries > 0 {
                (self.retries - 1) as nat
            } else {
                0
            },
            ..self
        }
    }

    /// The sequence after it has yielded `n` waits.
    pub open spec fn after(self, n: nat) -> Self
        decreases n,
    {
        if n == 0 {
            self
        } else {
            self.after((n - 1) as nat).advance()
        }
    }

    /// `nanos` is within what the next wait can be: at most the expected
    /// wait, or below twice that under jitter, and at most the cap.
    pub open spec fn limits(self, nanos: nat) -> bool {
        &&& !self.jitter ==> nanos <= self.expected()
        &&& nanos <= 2 * self.expected()
        &&& self.expected() > 0 ==> nanos < 2 * self.expected()
        &&& self.max_delay matches Some(max) ==> nanos <= max
    }
}

/// `wait` is a duration of exactly `nanos` nanoseconds.
pub open spec fn is_wait_of(wait: Option<Duration>, nanos: nat) -> bool {
    wait matches Some(d) && duration_nanos(d) == nanos
}

/// The waits of one retry invocation: made by `Strategy::iter`, consumed
/// front to back, at most `max_retries` of them.
pub struct StrategyIter {
    factor_iter: FactorIter,
    delay: Duration,
    max_delay: Option<Duration>,
    retries: usize,
    jitter: bool,
}

impl View for StrategyIter {
    type V = SequenceState;

    closed spec fn view(&self) -> SequenceState {
        SequenceState {
            factors: self.factor_iter@,
            delay: duration_nanos(self.delay),
            max_delay: match self.max_delay {
                Some(max_delay) => Some(duration_nanos(max_delay)),
                None => None,
            },
            retries: self.retries as nat,
            jitter: self.jitter,
        }
    }
}

impl StrategyIter {
    /// The delays of every sequence are lengths that a duration can have.
    pub proof fn lemma_wf(&self)
        ensures
            self@.wf(),
    {
        lemma_duration_bounded(self.delay);
        if let Some(max_delay) = self.max_delay {
            lemma_duration_bounded(max_delay);
        }
    }

    /// Yields the next wait, or `None` once the retry budget is spent. With
    /// jitter the wait depends on a random sample, drawn only when a wait is
    /// due; without, it is fixed by the state.
    pub fn next(&mut self) -> (wait: Option<Duration>)
        ensures
            old(self)@.exhausted() ==> wait is None && final(self)@ == old(self)@,
            !old(self)@.exhausted() ==> final(self)@ == old(self)@.advance() && (exists|
                sample: u32,
            |
                is_wait_of(wait, #[trigger] old(self)@.wait(sample))),
            !old(self)@.exhausted() && !old(self)@.jitter ==> is_wait_of(
                wait,
                capped(old(self)@.expected(), old(self)@.max_delay),
            ),
            !old(self)@.exhausted() && !old(self)@.jitter && old(self)@.factors is Fixed
                ==> is_wait_of(wait, capped(old(self)@.delay, old(self)@.max_delay)),
            wait matches Some(d) ==> old(self)@.limits(duration_nanos(d)),
            old(self)@.wf(),
    {
        let sample: u32 = if self.retries > 0 && self.jitter {
            random_sample()
        } else {
            0
        };
        proof {
            lemma_wait_bounds(self@, sample);
            self.lemma_wf();
        }
        self.next_with(sample)
    }

    /// Yields the next wait as it comes out when jitter draws `sample`, or
    /// `None` once the retry budget is spent.
    pub fn next_with(&mut self, sample: u32) -> (wait: Option<Duration>)
        ensures
            old(self)@.exhausted() ==> wait is None && final(self)@ == old(self)@,
            !old(self)@.exhausted() ==> final(self)@ == old(self)@.advance() && is_wait_of(
                wait,
                old(self)@.wait(sample),
            ),
            !old(self)@.exhausted() && !old(self)@.jitter && old(self)@.factors is Fixed
                ==> is_wait_of(wait, capped(old(self)@.delay, old(self)@.max_delay)),
            old(self)@.wf(),
    {
        proof {
            self.lemma_wf();
            assert(self@.delay * 1 == self@.delay);
        }
        if self.retries > 0 {
            if let Some(factor) = self.factor_iter.next() {
                let base: u128 = nanos_of(&self.delay);
                assert(base * factor <= MAX_NANOS * 0xFFFF_FFFF) by (nonlinear_arith)
                    requires
                        base <= MAX_NANOS,
                        factor <= 0xFFFF_FFFF,
                ;
                let product: u128 = base * (factor as u128);
                let mut delay: u128 = if product <= MAX_NANOS {
                    product
                } else {
                    MAX_NANOS
                };
                if self.jitter {
                    delay = jitter_nanos(delay, sample);
                }
                if let Some(max_delay) = self.max_delay {
                    let max: u128 = nanos_of(&max_delay);
                    if max < delay {
                        delay = max;
                    }
                }
                self.retries -= 1;
                return Some(duration_from_nanos(delay));
            }
        }
        None
    }
}

} // verus!
