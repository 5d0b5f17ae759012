//! Random perturbation of a delay.

use crate::duration::{duration_from_nanos, duration_nanos, nanos_of, MAX_NANOS};
use std::time::Duration;
use vstd::prelude::*;

verus! {

/// The divisor that turns a `u32` sample into a factor: a sample `s` stands
/// for the factor `s / 2³¹`, which lies in `[0, 2)`.
pub const SAMPLE_UNIT: u128 = 0x8000_0000;

/// A delay of `nanos` nanoseconds multiplied by the factor that `sample`
/// stands for, rounded down, and held at `MAX_NANOS`.
pub open spec fn jittered_nanos(nanos: nat, sample: u32) -> nat {
    let scaled = nanos * sample / 0x8000_0000;
    if scaled <= MAX_NANOS {
        scaled as nat
    } else {
        MAX_NANOS as nat
    }
}

/// Draws the sample for one jittered delay from `rand::random`, which asks
/// the thread-local generator for a uniformly distributed `u32`. Nothing is
/// claimed of the value. The generator panics if the operating system cannot
/// seed it.
#[verifier::external_body]
pub(crate) fn random_sample() -> (sample: u32) {
    rand::random::<u32>()
}

/// `jittered_nanos`, computed.
pub fn jitter_nanos(nanos: u128, sample: u32) -> (jittered: u128)
    requires
        nanos <= MAX_NANOS,
    ensures
        jittered == jittered_nanos(nanos as nat, sample),
{
    assert(nanos * sample <= MAX_NANOS * 0xFFFF_FFFF) by (nonlinear_arith)
        requires
            nanos <= MAX_NANOS,
            sample <= 0xFFFF_FFFF,
    ;
    let scaled: u128 = nanos * (sample as u128) / SAMPLE_UNIT;
    if scaled <= MAX_NANOS {
        scaled
    } else {
        MAX_NANOS
    }
}

/// Multiplies `duration` by the factor that `sample` stands for.
pub fn jitter_by(duration: Duration, sample: u32) -> (jittered: Duration)
    ensures
        duration_nanos(jittered) == jittered_nanos(duration_nanos(duration), sample),
{
    duration_from_nanos(jitter_nanos(nanos_of(&duration), sample))
}

/// Multiplies `duration` by a random factor drawn uniformly from `[0, 2)`.
/// The result is below twice the input, and zero if the input is zero.
pub fn jitter(duration: Duration) -> (jittered: Duration)
    ensures
        exists|sample: u32|
            duration_nanos(jittered) == #[trigger] jittered_nanos(
                duration_nanos(duration),
                sample,
            ),
        duration_nanos(jittered) <= 2 * duration_nanos(duration),
        duration_nanos(duration) > 0 ==> duration_nanos(jittered) < 2 * duration_nanos(duration),
{
    let sample: u32 = random_sample();
    proof {
        lemma_jitter_bounds(duration_nanos(duration), sample);
    }
    jitter_by(duration, sample)
}

/// A jittered delay lies in `[0, 2·nanos)`: it is never negative, stays below
/// twice the delay it was made from, and is zero when that delay is zero.
pub proof fn lemma_jitter_bounds(nanos: nat, sample: u32)
    ensures
        0 <= jittered_nanos(nanos, sample) <= 2 * nanos,
        nanos > 0 ==> jittered_nanos(nanos, sample) < 2 * nanos,
        jittered_nanos(nanos, sample) <= MAX_NANOS,
{
    let product: int = nanos * sample;
    assert(product <= nanos * 0xFFFF_FFFF) by (nonlinear_arith)
        requires
            product == nanos * sample,
            sample <= 0xFFFF_FFFF,
    ;
    assert(product / 0x8000_0000 <= 2 * nanos);
    if nanos > 0 {
        assert(product / 0x8000_0000 < 2 * nanos);
    }
}

} // verus!
