use futures_backoff::duration::{duration_from_nanos, nanos_of, MAX_NANOS, NANOS_PER_SEC};
use futures_backoff::strategy::{
    jitter, jitter_by, jitter_nanos, ExponentialBackoff, FactorIter, FibonacciBackoff,
    FixedInterval, SAMPLE_UNIT,
};
use futures_backoff::Strategy;
use std::time::Duration;

#[test]
fn durations_convert_to_nanoseconds_and_back() {
    assert_eq!(NANOS_PER_SEC, 1_000_000_000);
    assert_eq!(MAX_NANOS, u64::MAX as u128 * 1_000_000_000 + 999_999_999);
    assert_eq!(nanos_of(&Duration::new(3, 5)), 3_000_000_005);
    assert_eq!(nanos_of(&Duration::from_millis(123)), 123_000_000);
    assert_eq!(nanos_of(&Duration::new(0, 0)), 0);
    assert_eq!(nanos_of(&Duration::new(u64::MAX, 999_999_999)), MAX_NANOS);
    assert_eq!(duration_from_nanos(3_000_000_005), Duration::new(3, 5));
    assert_eq!(duration_from_nanos(999_999_999), Duration::new(0, 999_999_999));
    assert_eq!(duration_from_nanos(1_000_000_000), Duration::new(1, 0));
    assert_eq!(duration_from_nanos(0), Duration::new(0, 0));
    assert_eq!(duration_from_nanos(MAX_NANOS), Duration::new(u64::MAX, 999_999_999));
}

#[test]
fn generators_yield_their_series() {
    let mut exponential = ExponentialBackoff::new();
    let mut fibonacci = FibonacciBackoff::new();
    let mut fixed = FixedInterval::new();
    let exp = [1u32, 2, 4, 8, 16, 32, 64];
    let fib = [1u32, 1, 2, 3, 5, 8, 13];
    for n in 0..7 {
        assert_eq!(exponential.next(), Some(exp[n]));
        assert_eq!(fibonacci.next(), Some(fib[n]));
        assert_eq!(fixed.next(), Some(1));
    }
}

#[test]
fn generators_hold_at_the_largest_u32() {
    let mut exponential = ExponentialBackoff::new();
    for _ in 0..31 {
        exponential.next();
    }
    assert_eq!(exponential.next(), Some(2_147_483_648));
    assert_eq!(exponential.next(), Some(u32::MAX));
    assert_eq!(exponential.next(), Some(u32::MAX));

    let mut fibonacci = FibonacciBackoff::new();
    for _ in 0..45 {
        fibonacci.next();
    }
    assert_eq!(fibonacci.next(), Some(1_836_311_903));
    assert_eq!(fibonacci.next(), Some(2_971_215_073));
    assert_eq!(fibonacci.next(), Some(u32::MAX));
    assert_eq!(fibonacci.next(), Some(u32::MAX));
}

#[test]
fn factor_iter_runs_the_generator_it_holds() {
    let mut factors = FactorIter::Fibonacci(FibonacciBackoff::new());
    assert_eq!(factors.next(), Some(1));
    assert_eq!(factors.next(), Some(1));
    assert_eq!(factors.next(), Some(2));
    let mut factors = FactorIter::Exponential(ExponentialBackoff::new());
    assert_eq!(factors.next(), Some(1));
    assert_eq!(factors.next(), Some(2));
    let mut factors = FactorIter::Fixed(FixedInterval::new());
    assert_eq!(factors.next(), Some(1));
    assert_eq!(factors.next(), Some(1));
}

#[test]
fn jitter_multiplies_by_the_factor_of_the_sample() {
    assert_eq!(SAMPLE_UNIT, 1 << 31);
    assert_eq!(jitter_nanos(1000, 0), 0);
    assert_eq!(jitter_nanos(1000, 0x4000_0000), 500);
    assert_eq!(jitter_nanos(1000, 0x8000_0000), 1000);
    assert_eq!(jitter_nanos(1000, 0xC000_0000), 1500);
    assert_eq!(jitter_nanos(1000, u32::MAX), 1999);
    assert_eq!(jitter_nanos(1, u32::MAX), 1);
    assert_eq!(jitter_nanos(0, u32::MAX), 0);
    assert_eq!(jitter_nanos(MAX_NANOS, 0x8000_0000), MAX_NANOS);
    assert_eq!(jitter_nanos(MAX_NANOS, u32::MAX), MAX_NANOS);
    assert_eq!(jitter_nanos(MAX_NANOS, 0x4000_0000), MAX_NANOS / 2);

    let second = Duration::from_secs(1);
    assert_eq!(jitter_by(second, 0), Duration::from_secs(0));
    assert_eq!(jitter_by(second, 0x8000_0000), second);
    assert_eq!(jitter_by(second, 0xC000_0000), Duration::from_millis(1500));
    assert!(jitter_by(second, u32::MAX) < Duration::from_secs(2));
}

#[test]
fn jitter_stays_below_twice_the_delay() {
    let delay = Duration::from_millis(250);
    for _ in 0..2000 {
        let jittered = jitter(delay);
        assert!(jittered < Duration::from_millis(500));
    }
    assert_eq!(jitter(Duration::from_secs(0)), Duration::from_secs(0));
}

#[test]
fn jitter_draws_a_new_factor_each_time() {
    let delay = Duration::from_secs(1000);
    let first = jitter(delay);
    let mut differs = false;
    for _ in 0..64 {
        if jitter(delay) != first {
            differs = true;
        }
    }
    assert!(differs);
}

#[test]
fn jittered_waits_depend_on_the_sample_alone() {
    let strategy = Strategy::exponential(Duration::from_millis(10)).with_jitter(true);
    let mut s = strategy.iter();
    assert_eq!(s.next_with(0x8000_0000), Some(Duration::from_millis(10)));
    assert_eq!(s.next_with(0xC000_0000), Some(Duration::from_millis(30)));
    assert_eq!(s.next_with(0), Some(Duration::from_millis(0)));
    assert_eq!(s.next_with(0x4000_0000), Some(Duration::from_millis(40)));
    assert_eq!(s.next_with(u32::MAX), Some(Duration::from_nanos(319_999_999)));
    assert_eq!(s.next_with(0x8000_0000), None);

    let mut plain = Strategy::exponential(Duration::from_millis(10)).iter();
    assert_eq!(plain.next_with(0), Some(Duration::from_millis(10)));
    assert_eq!(plain.next_with(u32::MAX), Some(Duration::from_millis(20)));
}

#[test]
fn cap_comes_after_jitter() {
    let strategy = Strategy::exponential(Duration::from_millis(10))
        .with_jitter(true)
        .with_max_delay(Duration::from_millis(15));
    let mut s = strategy.iter();
    assert_eq!(s.next_with(0xC000_0000), Some(Duration::from_millis(15)));
    assert_eq!(s.next_with(0x4000_0000), Some(Duration::from_millis(10)));
    assert_eq!(s.next_with(0x8000_0000), Some(Duration::from_millis(15)));

    for _ in 0..200 {
        let mut s = strategy.iter();
        let mut expected = 10u64;
        while let Some(wait) = s.next() {
            assert!(wait <= Duration::from_millis(15));
            assert!(wait < Duration::from_millis(2 * expected));
            expected *= 2;
        }
    }
}

#[test]
fn jittered_sequence_still_has_one_wait_per_retry() {
    let strategy = Strategy::fibonacci(Duration::from_millis(3))
        .with_jitter(true)
        .with_max_retries(9);
    let mut s = strategy.iter();
    let fib = [1u64, 1, 2, 3, 5, 8, 13, 21, 34];
    for n in 0..9 {
        let wait = s.next();
        assert!(wait.is_some());
        assert!(wait.unwrap() < Duration::from_millis(2 * 3 * fib[n]));
    }
    assert_eq!(s.next(), None);
}
