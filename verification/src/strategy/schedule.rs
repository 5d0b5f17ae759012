//! The schedule of a strategy: its waits by position, in closed form.

use super::{
    capped, exponential_factor, fib, fibonacci_factor, jittered_nanos, lemma_exponential_nth,
    lemma_fib_fits, lemma_fibonacci_nth, lemma_jitter_bounds, scaled_nanos, ExponentialState,
    FactorState, FactorType, FibonacciState, SequenceState, StrategyView,
};
use crate::duration::MAX_NANOS;
use vstd::arithmetic::power2::pow2;
use vstd::prelude::*;

verus! {

/// The `n`-th (0-indexed) multiplier of a backoff shape.
pub open spec fn factor_at(factor: FactorType, n: nat) -> nat {
    match factor {
        FactorType::Exponential => exponential_factor(n),
        FactorType::Fibonacci => fibonacci_factor(n),
        FactorType::Fixed => 1,
    }
}

/// The `n`-th (0-indexed) wait that a strategy schedules, in nanoseconds,
/// given the sample that jitter draws for it.
pub open spec fn wait_at(strategy: StrategyView, n: nat, sample: u32) -> nat {
    SequenceState::start(strategy).after(n).wait(sample)
}

/// After `n` waits the generator of a sequence stands at position `n`.
proof fn lemma_factors_after(strategy: StrategyView, n: nat)
    ensures
        SequenceState::start(strategy).after(n).factors == match strategy.factor {
            FactorType::Exponential => FactorState::Exponential(ExponentialState::after(n)),
            FactorType::Fibonacci => FactorState::Fibonacci(FibonacciState::after(n)),
            FactorType::Fixed => FactorState::Fixed,
        },
    decreases n,
{
    if n > 0 {
        lemma_factors_after(strategy, (n - 1) as nat);
    }
}

/// A sequence that has yielded `n` waits holds the configuration it was
/// started with, offers the `n`-th multiplier of its shape next, and has as
/// many waits left as the budget allows beyond `n`.
pub proof fn lemma_sequence_after(strategy: StrategyView, n: nat)
    ensures
        SequenceState::start(strategy).after(n).factors.current() == factor_at(strategy.factor, n),
        SequenceState::start(strategy).after(n).delay == strategy.delay,
        SequenceState::start(strategy).after(n).max_delay == strategy.max_delay,
        SequenceState::start(strategy).after(n).jitter == strategy.jitter,
        SequenceState::start(strategy).after(n).retries == if n <= strategy.max_retries {
            strategy.max_retries - n
        } else {
            0
        },
        SequenceState::start(strategy).after(n).exhausted() <==> n >= strategy.max_retries,
    decreases n,
{
    lemma_factors_after(strategy, n);
    lemma_exponential_nth(n);
    lemma_fibonacci_nth(n);
    if n > 0 {
        lemma_sequence_after(strategy, (n - 1) as nat);
    }
}

/// Under a fixed strategy without jitter every wait is the base delay, held
/// at the cap if there is one.
pub proof fn lemma_fixed_wait(strategy: StrategyView, n: nat, sample: u32)
    requires
        strategy.factor is Fixed,
        !strategy.jitter,
        strategy.wf(),
    ensures
        wait_at(strategy, n, sample) == capped(strategy.delay, strategy.max_delay),
        strategy.max_delay is None ==> wait_at(strategy, n, sample) == strategy.delay,
{
    lemma_sequence_after(strategy, n);
    assert(strategy.delay * 1 == strategy.delay) by (nonlinear_arith);
}

/// Under an exponential strategy without jitter the `n`-th wait is the base
/// delay times `2ⁿ`, held at the cap if there is one. This holds while `2ⁿ`
/// fits the multiplier and the product fits a duration; beyond that the
/// multiplier stays at `u32::MAX` and the product at `MAX_NANOS`.
pub proof fn lemma_exponential_wait(strategy: StrategyView, n: nat, sample: u32)
    requires
        strategy.factor is Exponential,
        !strategy.jitter,
    ensures
        wait_at(strategy, n, sample) == capped(
            scaled_nanos(strategy.delay, exponential_factor(n)),
            strategy.max_delay,
        ),
        n < 32 && strategy.delay * pow2(n) <= MAX_NANOS ==> wait_at(strategy, n, sample) == capped(
            strategy.delay * pow2(n),
            strategy.max_delay,
        ),
{
    lemma_sequence_after(strategy, n);
}

/// Under a Fibonacci strategy without jitter the `n`-th wait is the base
/// delay times `fib(n)`, held at the cap if there is one. This holds while
/// `fib(n)` fits the multiplier, which it does up to `n = 46`, and the
/// product fits a duration; beyond that the multiplier stays at `u32::MAX`
/// and the product at `MAX_NANOS`.
pub proof fn lemma_fibonacci_wait(strategy: StrategyView, n: nat, sample: u32)
    requires
        strategy.factor is Fibonacci,
        !strategy.jitter,
    ensures
        wait_at(strategy, n, sample) == capped(
            scaled_nanos(strategy.delay, fibonacci_factor(n)),
            strategy.max_delay,
        ),
        n <= 46 && strategy.delay * fib(n) <= MAX_NANOS ==> wait_at(strategy, n, sample) == capped(
            strategy.delay * fib(n),
            strategy.max_delay,
        ),
{
    lemma_sequence_after(strategy, n);
    lemma_fib_fits(n);
}

/// What holds of every wait, whatever jitter draws. Without jitter the wait
/// is the expected one, held at the cap. With jitter it is never negative
/// and lies below twice the expected wait, or is zero where that is zero.
/// The cap comes last: the wait is the jittered delay held at the cap, and so
/// never exceeds it.
pub proof fn lemma_wait_bounds(state: SequenceState, sample: u32)
    ensures
        state.limits(state.wait(sample)),
        state.jitter ==> state.wait(sample) == capped(
            jittered_nanos(state.expected(), sample),
            state.max_delay,
        ),
        !state.jitter ==> state.wait(sample) == capped(state.expected(), state.max_delay),
{
    lemma_jitter_bounds(state.expected(), sample);
}

/// Configuring a strategy makes a new value and leaves everything but the
/// configured parameter as it was: the shape, the base delay and the other
/// parameters carry over, setting a parameter twice is the same as setting
/// it once, and the order of two different settings does not matter. A
/// sequence started earlier holds its own copy of the configuration and is
/// untouched by all of this.
pub proof fn lemma_configuration(
    strategy: StrategyView,
    max_delay: nat,
    max_retries: nat,
    jitter: bool,
)
    ensures
        strategy.with_max_delay(max_delay) == (StrategyView {
            max_delay: Some(max_delay),
            ..strategy
        }),
        strategy.with_max_retries(max_retries) == (StrategyView { max_retries, ..strategy }),
        strategy.with_jitter(jitter) == (StrategyView { jitter, ..strategy }),
        strategy.with_max_delay(max_delay).with_max_delay(max_delay) == strategy.with_max_delay(
            max_delay,
        ),
        strategy.with_max_retries(max_retries).with_max_retries(max_retries)
            == strategy.with_max_retries(max_retries),
        strategy.with_jitter(jitter).with_jitter(jitter) == strategy.with_jitter(jitter),
        strategy.with_max_delay(max_delay).with_max_retries(max_retries)
            == strategy.with_max_retries(max_retries).with_max_delay(max_delay),
        strategy.with_max_delay(max_delay).with_jitter(jitter) == strategy.with_jitter(
            jitter,
        ).with_max_delay(max_delay),
        strategy.with_max_retries(max_retries).with_jitter(jitter) == strategy.with_jitter(
            jitter,
        ).with_max_retries(max_retries),
        SequenceState::start(strategy.with_max_delay(max_delay)) == (SequenceState {
            max_delay: Some(max_delay),
            ..SequenceState::start(strategy)
        }),
        SequenceState::start(strategy.with_max_retries(max_retries)) == (SequenceState {
            retries: max_retries,
            ..SequenceState::start(strategy)
        }),
        SequenceState::start(strategy.with_jitter(jitter)) == (SequenceState {
            jitter,
            ..SequenceState::start(strategy)
        }),
{
}

} // verus!
