//! The exponential multiplier generator.

use vstd::arithmetic::power2::{lemma2_to64, lemma_pow2_strictly_increases, lemma_pow2_unfold, pow2};
use vstd::prelude::*;

verus! {

/// What an [`ExponentialBackoff`] holds: the multiplier it yields next and the
/// base that the multiplier grows by.
pub struct ExponentialState {
    pub curr: nat,
    pub base: nat,
}

impl ExponentialState {
    /// The state of a fresh generator.
    pub open spec fn start() -> Self {
        ExponentialState { curr: 1, base: 2 }
    }

    /// The state after one more multiplier has been yielded: the running
    /// product grows by `base`, or is pinned at `u32::MAX` if it no longer fits.
    pub open spec fn advance(self) -> Self {
        ExponentialState {
            curr: if self.curr * self.base <= u32::MAX {
                self.curr * self.base
            } else {
                u32::MAX as nat
            },
            base: self.base,
        }
    }

    /// The state of a fresh generator after `n` multipliers have been yielded.
    pub open spec fn after(n: nat) -> Self
        decreases n,
    {
        if n == 0 {
            Self::start()
        } else {
            Self::after((n - 1) as nat).advance()
        }
    }
}

/// The `n`-th (0-indexed) multiplier of the exponential schedule: `2ⁿ` while
/// that fits in a `u32`, and `u32::MAX` from then on.
pub open spec fn exponential_factor(n: nat) -> nat {
    if n < 32 {
        pow2(n)
    } else {
        u32::MAX as nat
    }
}

/// Yields `1, b, b², b³, …` for base `b`, which is 2; once the running product
/// overflows, every later multiplier is `u32::MAX`.
#[derive(Debug, Clone)]
pub struct ExponentialBackoff {
    curr: u32,
    base: u32,
}

impl View for ExponentialBackoff {
    type V = ExponentialState;

    closed spec fn view(&self) -> ExponentialState {
        ExponentialState { curr: self.curr as nat, base: self.base as nat }
    }
}

impl ExponentialBackoff {
    /// A generator at the start of its sequence.
    pub fn new() -> (generator: ExponentialBackoff)
        ensures
            generator@ == ExponentialState::start(),
    {
        ExponentialBackoff { curr: 1, base: 2 }
    }

    /// Yields the current multiplier and moves on to the next one. The
    /// sequence never ends.
    pub fn next(&mut self) -> (factor: Option<u32>)
        ensures
            factor matches Some(f) && f == old(self)@.curr,
            final(self)@ == old(self)@.advance(),
    {
        let factor = self.curr;

        if let Some(next) = self.curr.checked_mul(self.base) {
            self.curr = next;
        } else {
            self.curr = u32::MAX;
        }

        Some(factor)
    }
}

/// A fresh exponential generator yields `2ⁿ` as its `n`-th multiplier for
/// `n < 32`, and `u32::MAX` ever after.
pub proof fn lemma_exponential_nth(n: nat)
    ensures
        ExponentialState::after(n).curr == exponential_factor(n),
        ExponentialState::after(n).base == 2,
    decreases n,
{
    lemma2_to64();
    if n > 0 {
        lemma_exponential_nth((n - 1) as nat);
        if n < 32 {
            lemma_pow2_unfold(n);
            lemma_pow2_strictly_increases(n, 32);
        } else if n == 32 {
            lemma_pow2_unfold(32);
        }
    }
}

} // verus!
