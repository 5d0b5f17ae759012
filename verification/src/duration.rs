//! `std::time::Duration` as a count of nanoseconds.
//!
//! Verus sees a `Duration` as an opaque value. The schedule arithmetic is
//! done on nanosecond counts; this module names what a `Duration` holds and
//! converts in both directions.

use std::time::Duration;
use vstd::prelude::*;

verus! {

/// The number of nanoseconds in a second.
pub const NANOS_PER_SEC: u128 = 1_000_000_000;

/// The longest span that the schedule arithmetic produces, in nanoseconds:
/// `u64::MAX` whole seconds and 999,999,999 nanoseconds. Every `Duration` is
/// at most this long, and every count up to it can be made into a `Duration`.
pub const MAX_NANOS: u128 = 18_446_744_073_709_551_615_999_999_999;

/// The whole seconds of a duration: what `Duration::as_secs` returns.
pub uninterp spec fn duration_secs(d: Duration) -> u64;

/// The part of a duration below one second, in nanoseconds: what
/// `Duration::subsec_nanos` returns.
pub uninterp spec fn duration_subsec_nanos(d: Duration) -> u32;

/// The length of a duration in nanoseconds: its whole seconds and its part
/// below one second. That part is below one billion for every duration, as
/// `Duration::subsec_nanos` documents. It is taken modulo one billion here,
/// which changes the length of no duration and lets the bound on every
/// length be known without a call.
pub open spec fn duration_nanos(d: Duration) -> nat {
    (duration_secs(d) * 1_000_000_000 + duration_subsec_nanos(d) % 1_000_000_000) as nat
}

/// Every duration is at most `MAX_NANOS` long.
pub proof fn lemma_duration_bounded(d: Duration)
    ensures
        duration_nanos(d) <= MAX_NANOS,
{
}

/// `Duration::as_secs`, believed and not proved: it returns the whole seconds
/// of the duration.
pub assume_specification[ Duration::as_secs ](d: &Duration) -> (secs: u64)
    ensures
        secs == duration_secs(*d),
;

/// `Duration::subsec_nanos`, believed and not proved: it returns the
/// fractional part of the duration in nanoseconds, which is always below one
/// billion.
pub assume_specification[ Duration::subsec_nanos ](d: &Duration) -> (nanos: u32)
    ensures
        nanos == duration_subsec_nanos(*d),
        nanos < 1_000_000_000,
;

/// `Duration::new`, believed and not proved: given a nanosecond part below
/// one billion, nothing carries over into the seconds, so the call cannot
/// panic and the result holds exactly the two parts it was given.
pub assume_specification[ Duration::new ](secs: u64, nanos: u32) -> (d: Duration)
    requires
        nanos < 1_000_000_000,
    ensures
        duration_secs(d) == secs,
        duration_subsec_nanos(d) == nanos,
;

/// The length of `d` in nanoseconds.
pub fn nanos_of(d: &Duration) -> (n: u128)
    ensures
        n == duration_nanos(*d),
        n <= MAX_NANOS,
{
    let secs: u128 = d.as_secs() as u128;
    let subsec: u128 = d.subsec_nanos() as u128;
    secs * NANOS_PER_SEC + subsec
}

/// The duration that is `n` nanoseconds long.
pub fn duration_from_nanos(n: u128) -> (d: Duration)
    requires
        n <= MAX_NANOS,
    ensures
        duration_nanos(d) == n,
{
    let secs: u64 = (n / NANOS_PER_SEC) as u64;
    let subsec: u32 = (n % NANOS_PER_SEC) as u32;
    Duration::new(secs, subsec)
}

} // verus!
