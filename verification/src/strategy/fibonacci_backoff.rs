//! The Fibonacci multiplier generator.

use vstd::prelude::*;

verus! {

/// The Fibonacci numbers, counted from `fib(0) = fib(1) = 1`.
pub open spec fn fib(n: nat) -> nat
    decreases n,
{
    if n < 2 {
        1
    } else {
        fib((n - 1) as nat) + fib((n - 2) as nat)
    }
}

/// The `n`-th (0-indexed) multiplier of the Fibonacci schedule: `fib(n)` while
/// that fits in a `u32`, and `u32::MAX` from then on.
pub open spec fn fibonacci_factor(n: nat) -> nat {
    if fib(n) <= u32::MAX {
        fib(n)
    } else {
        u32::MAX as nat
    }
}

/// What a [`FibonacciBackoff`] holds: the multiplier it yields next and the
/// one after that.
pub struct FibonacciState {
    pub curr: nat,
    pub next: nat,
}

impl FibonacciState {
    /// The state of a fresh generator.
    pub open spec fn start() -> Self {
        FibonacciState { curr: 1, next: 1 }
    }

    /// The state after one more multiplier has been yielded. The current term
    /// always moves on to the old next term; the next term becomes the sum of
    /// the two, or `u32::MAX` if the sum no longer fits.
    pub open spec fn advance(self) -> Self {
        FibonacciState {
            curr: self.next,
            next: if self.curr + self.next <= u32::MAX {
                self.curr + self.next
            } else {
                u32::MAX as nat
            },
        }
    }

    /// The state of a fresh generator after `n` multipliers have been yielded.
    pub open spec fn after(n: nat) -> Self
        decreases n,
    {
        if n == 0 {
            Self::start()
        } else {
            Self::after((n - 1) as nat).advance()
        }
    }
}

/// Yields the Fibonacci numbers `1, 1, 2, 3, 5, …`; growth stops at
/// `u32::MAX` instead of wrapping.
#[derive(Debug, Clone)]
pub struct FibonacciBackoff {
    curr: u32,
    next: u32,
}

impl View for FibonacciBackoff {
    type V = FibonacciState;

    closed spec fn view(&self) -> FibonacciState {
        FibonacciState { curr: self.curr as nat, next: self.next as nat }
    }
}

impl FibonacciBackoff {
    /// A generator at the start of its sequence.
    pub fn new() -> (generator: FibonacciBackoff)
        ensures
            generator@ == FibonacciState::start(),
    {
        FibonacciBackoff { curr: 1, next: 1 }
    }

    /// Yields the current multiplier and moves on to the next one. The
    /// sequence never ends.
    pub fn next(&mut self) -> (factor: Option<u32>)
        ensures
            factor matches Some(f) && f == old(self)@.curr,
            final(self)@ == old(self)@.advance(),
    {
        let factor = self.curr;

        if let Some(next_next) = self.curr.checked_add(self.next) {
            self.curr = self.next;
            self.next = next_next;
        } else {
            self.curr = self.next;
            self.next = u32::MAX;
        }

        Some(factor)
    }
}

/// Every Fibonacci number is at least 1, and the sequence never decreases.
pub proof fn lemma_fib_grows(n: nat)
    ensures
        1 <= fib(n) <= fib(n + 1),
    decreases n,
{
    if n >= 1 {
        lemma_fib_grows((n - 1) as nat);
    }
}

/// A fresh Fibonacci generator yields `fib(n)` as its `n`-th multiplier for as
/// long as `fib(n)` fits in a `u32`, and `u32::MAX` ever after.
pub proof fn lemma_fibonacci_nth(n: nat)
    ensures
        FibonacciState::after(n).curr == fibonacci_factor(n),
        FibonacciState::after(n).next == fibonacci_factor(n + 1),
    decreases n,
{
    if n > 0 {
        lemma_fibonacci_nth((n - 1) as nat);
        lemma_fib_grows((n - 1) as nat);
        lemma_fib_grows(n);
    }
}

/// The Fibonacci numbers up to `fib(46)` fit in a `u32`; `fib(47)` is the
/// first that does not.
pub proof fn lemma_fib_fits(n: nat)
    ensures
        n <= 46 <==> fib(n) <= u32::MAX,
{
    lemma_fib_46_47();
    if n <= 46 {
        lemma_fib_monotonic(n, 46);
    } else {
        lemma_fib_monotonic(47, n);
    }
}

/// `fib` is monotonic.
pub proof fn lemma_fib_monotonic(i: nat, j: nat)
    requires
        i <= j,
    ensures
        fib(i) <= fib(j),
    decreases j - i,
{
    if i < j {
        lemma_fib_grows(i);
        lemma_fib_monotonic(i + 1, j);
    }
}

/// Three neighbouring Fibonacci numbers, walked up from the start.
spec fn fib_window(n: nat) -> (nat, nat, nat)
    decreases n,
{
    if n == 0 {
        (1, 1, 2)
    } else {
        let w = fib_window((n - 1) as nat);
        (w.1, w.2, w.1 + w.2)
    }
}

proof fn lemma_fib_window(n: nat)
    ensures
        fib_window(n) == (fib(n), fib(n + 1), fib(n + 2)),
    decreases n,
{
    if n > 0 {
        lemma_fib_window((n - 1) as nat);
    }
}

proof fn lemma_fib_46_47()
    ensures
        fib(46) == 2971215073,
        fib(47) == 4807526976,
{
    assert(fib_window(0) == (1nat, 1nat, 2nat));
    assert(fib_window(9) == (55nat, 89nat, 144nat)) by {
        reveal_with_fuel(fib_window, 10);
    }
    assert(fib_window(18) == (4181nat, 6765nat, 10946nat)) by {
        reveal_with_fuel(fib_window, 10);
    }
    assert(fib_window(27) == (317811nat, 514229nat, 832040nat)) by {
        reveal_with_fuel(fib_window, 10);
    }
    assert(fib_window(36) == (24157817nat, 39088169nat, 63245986nat)) by {
        reveal_with_fuel(fib_window, 10);
    }
    assert(fib_window(45) == (1836311903nat, 2971215073nat, 4807526976nat)) by {
        reveal_with_fuel(fib_window, 10);
    }
    lemma_fib_window(45);
}

} // verus!
