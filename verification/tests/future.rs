use futures::executor::block_on;
use futures::future::Either;
use futures_backoff::condition::Always;
use futures_backoff::future::Phase;
use futures_backoff::{Action, Condition, RetryIf, Strategy};
use std::task::{Context, Poll};
use std::time::Duration;

#[test]
fn attempts_just_once() {
    let s = Strategy::fixed(Duration::from_millis(100)).with_max_retries(0);
    let mut num_calls = 0;
    let res = {
        let fut = s.retry(|| {
            num_calls += 1;
            async { Err::<(), u64>(42) }
        });
        block_on(fut)
    };

    assert_eq!(res, Err(42));
    assert_eq!(num_calls, 1);
}

#[test]
fn attempts_until_max_retries_exceeded() {
    let s = Strategy::fixed(Duration::from_millis(100)).with_max_retries(2);
    let mut num_calls = 0;
    let res = {
        let fut = s.retry(|| {
            num_calls += 1;
            async { Err::<(), u64>(42) }
        });
        block_on(fut)
    };

    assert_eq!(res, Err(42));
    assert_eq!(num_calls, 3);
}

#[test]
fn attempts_until_success() {
    let s = Strategy::fixed(Duration::from_millis(100));
    let mut num_calls = 0;
    let res = {
        let fut = s.retry(|| {
            num_calls += 1;
            if num_calls < 4 {
                Either::Left(async { Err::<(), u64>(42) })
            } else {
                Either::Right(async { Ok::<(), u64>(()) })
            }
        });
        block_on(fut)
    };

    assert_eq!(res, Ok(()));
    assert_eq!(num_calls, 4);
}

#[test]
fn attempts_retry_only_if_given_condition_is_true() {
    let s = Strategy::fixed(Duration::from_millis(100)).with_max_retries(5);
    let mut num_calls = 0;
    let res = {
        let action = || {
            num_calls += 1;
            async move { Err::<(), u64>(num_calls) }
        };
        let fut = s.retry_if(action, |e: &u64| *e < 3);
        block_on(fut)
    };

    assert_eq!(res, Err(3));
    assert_eq!(num_calls, 3);
}

#[test]
fn refused_first_error_ends_the_invocation() {
    let s = Strategy::exponential(Duration::from_secs(3600)).with_max_retries(5);
    let mut num_calls = 0;
    let mut asked = 0;
    let res = {
        let action = || {
            num_calls += 1;
            async { Err::<(), u64>(7) }
        };
        let asked = std::cell::Cell::from_mut(&mut asked);
        let fut = s.retry_if(action, |_: &u64| {
            asked.set(asked.get() + 1);
            false
        });
        block_on(fut)
    };

    assert_eq!(res, Err(7));
    assert_eq!(num_calls, 1);
    assert_eq!(asked, 1);
}

#[test]
fn success_at_once_asks_nothing_and_waits_for_nothing() {
    let s = Strategy::fixed(Duration::from_secs(3600));
    let mut num_calls = 0;
    let mut asked = 0;
    let res = {
        let action = || {
            num_calls += 1;
            async { Ok::<u32, u64>(42) }
        };
        let asked = std::cell::Cell::from_mut(&mut asked);
        let fut = s.retry_if(action, |_: &u64| {
            asked.set(asked.get() + 1);
            true
        });
        block_on(fut)
    };

    assert_eq!(res, Ok(42));
    assert_eq!(num_calls, 1);
    assert_eq!(asked, 0);
}

#[test]
fn predicate_is_asked_once_for_each_failed_attempt() {
    let s = Strategy::fixed(Duration::from_millis(1)).with_max_retries(3);
    let mut num_calls = 0;
    let mut asked = 0;
    let res = {
        let action = || {
            num_calls += 1;
            async { Err::<(), u64>(9) }
        };
        let asked = std::cell::Cell::from_mut(&mut asked);
        let fut = s.retry_if(action, |_: &u64| {
            asked.set(asked.get() + 1);
            true
        });
        block_on(fut)
    };

    assert_eq!(res, Err(9));
    assert_eq!(num_calls, 4);
    assert_eq!(asked, 4);
}

#[test]
fn final_error_is_the_one_of_the_last_attempt() {
    let s = Strategy::fixed(Duration::from_millis(1)).with_max_retries(4);
    let mut num_calls = 0u64;
    let res = {
        let fut = s.retry(|| {
            num_calls += 1;
            let n = num_calls;
            async move { Err::<(), u64>(100 + n) }
        });
        block_on(fut)
    };

    assert_eq!(res, Err(105));
    assert_eq!(num_calls, 5);
}

#[test]
fn waits_pass_between_attempts() {
    let s = Strategy::fixed(Duration::from_millis(40)).with_max_retries(2);
    let started = std::time::Instant::now();
    let res = block_on(s.retry(|| async { Err::<(), u64>(1) }));

    assert_eq!(res, Err(1));
    assert!(started.elapsed() >= Duration::from_millis(80));
}

#[test]
fn free_functions_use_the_default_strategy() {
    let res = block_on(futures_backoff::retry(|| async { Ok::<u32, u64>(42) }));
    assert_eq!(res, Ok(42));

    let mut num_calls = 0;
    let res = {
        let fut = futures_backoff::retry_if(
            || {
                num_calls += 1;
                async { Err::<u32, u64>(5) }
            },
            |e: &u64| *e != 5,
        );
        block_on(fut)
    };
    assert_eq!(res, Err(5));
    assert_eq!(num_calls, 1);
}

struct Countdown {
    failures_left: u32,
    runs: u32,
}

impl Action for Countdown {
    type Future = std::future::Ready<Result<u32, String>>;
    type Item = u32;
    type Error = String;

    fn run(&mut self) -> Self::Future {
        self.runs += 1;
        if self.failures_left == 0 {
            std::future::ready(Ok(self.runs))
        } else {
            self.failures_left -= 1;
            std::future::ready(Err(format!("failure {}", self.runs)))
        }
    }
}

struct AtMost {
    answers_left: u32,
}

impl Condition<String> for AtMost {
    fn should_retry(&mut self, _error: &String) -> bool {
        if self.answers_left == 0 {
            false
        } else {
            self.answers_left -= 1;
            true
        }
    }
}

#[test]
fn actions_and_conditions_of_ones_own_are_driven_alike() {
    let s = Strategy::fixed(Duration::from_millis(1)).with_max_retries(10);

    let action = Countdown { failures_left: 3, runs: 0 };
    let res = block_on(s.retry(action));
    assert_eq!(res, Ok(4));

    let action = Countdown { failures_left: 3, runs: 0 };
    let res = block_on(s.retry_if(action, AtMost { answers_left: 2 }));
    assert_eq!(res, Err("failure 3".to_string()));

    let action = Countdown { failures_left: 30, runs: 0 };
    let res = block_on(s.retry(action));
    assert_eq!(res, Err("failure 11".to_string()));
}

#[test]
fn phases_follow_the_computation_in_flight() {
    let waker = futures::task::noop_waker();
    let mut ctx = Context::from_waker(&waker);
    let s = Strategy::fixed(Duration::from_millis(20)).with_max_retries(1);
    let mut num_calls = 0;
    {
        let mut fut = s.retry(|| {
            num_calls += 1;
            async { Err::<(), u64>(42) }
        });
        assert_eq!(fut.phase(), Phase::Attempting);

        assert_eq!(fut.advance(&mut ctx), Poll::Pending);
        assert_eq!(fut.phase(), Phase::Waiting);

        let started = std::time::Instant::now();
        let mut polled = fut.advance(&mut ctx);
        while polled == Poll::Pending {
            assert_eq!(fut.phase(), Phase::Waiting);
            assert!(started.elapsed() < Duration::from_secs(10));
            std::hint::spin_loop();
            polled = fut.advance(&mut ctx);
        }
        assert!(started.elapsed() >= Duration::from_millis(15));
        assert_eq!(polled, Poll::Ready(Err(42)));
        assert_eq!(fut.phase(), Phase::ResolvedErr);

        assert_eq!(fut.advance(&mut ctx), Poll::Pending);
        assert_eq!(fut.phase(), Phase::ResolvedErr);
    }
    assert_eq!(num_calls, 2);

    let mut fut = s.retry(|| async { Ok::<u8, u64>(1) });
    assert_eq!(fut.advance(&mut ctx), Poll::Ready(Ok(1)));
    assert_eq!(fut.phase(), Phase::ResolvedOk);
    assert_eq!(fut.advance(&mut ctx), Poll::Pending);
    assert_eq!(fut.phase(), Phase::ResolvedOk);
}

#[test]
fn pending_attempt_leaves_the_invocation_as_it_is() {
    let waker = futures::task::noop_waker();
    let mut ctx = Context::from_waker(&waker);
    let s = Strategy::fixed(Duration::from_millis(1));
    let mut num_calls = 0;
    {
        let mut fut = s.retry(|| {
            num_calls += 1;
            futures::future::pending::<Result<(), u64>>()
        });
        for _ in 0..10 {
            assert_eq!(fut.advance(&mut ctx), Poll::Pending);
            assert_eq!(fut.phase(), Phase::Attempting);
        }
    }
    assert_eq!(num_calls, 1);
}

#[test]
fn settling_a_failure_follows_the_verdict_and_the_budget() {
    let s = Strategy::fixed(Duration::from_millis(1)).with_max_retries(1);
    let action = || async { Err::<(), u64>(0) };
    let yes = |_: &u64| true;

    let mut fut = RetryIf::new(&s, action, yes);
    assert_eq!(fut.settle(7, false), Some(7));
    assert_eq!(fut.phase(), Phase::ResolvedErr);

    let mut fut = RetryIf::new(&s, action, yes);
    assert_eq!(fut.settle(7, true), None);
    assert_eq!(fut.phase(), Phase::Waiting);

    let none = Strategy::fixed(Duration::from_millis(1)).with_max_retries(0);
    let mut fut = RetryIf::new(&none, action, yes);
    assert_eq!(fut.settle(7, true), Some(7));
    assert_eq!(fut.phase(), Phase::ResolvedErr);
}

#[test]
fn concluding_an_attempt_hands_its_outcome_on() {
    let s = Strategy::fixed(Duration::from_millis(1)).with_max_retries(1);
    let action = || async { Err::<u32, u64>(0) };
    let yes = |_: &u64| true;

    let mut fut = RetryIf::new(&s, action, yes);
    assert_eq!(fut.conclude(Ok(5), false), Some(Ok(5)));
    assert_eq!(fut.phase(), Phase::ResolvedOk);

    let mut fut = RetryIf::new(&s, action, yes);
    assert_eq!(fut.conclude(Ok(6), true), Some(Ok(6)));
    assert_eq!(fut.phase(), Phase::ResolvedOk);

    let mut fut = RetryIf::new(&s, action, yes);
    assert_eq!(fut.conclude(Err(7), false), Some(Err(7)));
    assert_eq!(fut.phase(), Phase::ResolvedErr);

    let mut fut = RetryIf::new(&s, action, yes);
    assert_eq!(fut.conclude(Err(7), true), None);
    assert_eq!(fut.phase(), Phase::Waiting);

    let none = Strategy::fixed(Duration::from_millis(1)).with_max_retries(0);
    let mut fut = RetryIf::new(&none, action, yes);
    assert_eq!(fut.conclude(Err(8), true), Some(Err(8)));
    assert_eq!(fut.phase(), Phase::ResolvedErr);
}

#[test]
fn retry_and_an_always_true_predicate_run_alike() {
    let s = Strategy::fixed(Duration::from_millis(1)).with_max_retries(3);
    let mut plain_calls = 0u64;
    let plain = {
        let fut = s.retry(|| {
            plain_calls += 1;
            let n = plain_calls;
            async move { if n < 3 { Err::<u64, u64>(n) } else { Ok(n) } }
        });
        block_on(fut)
    };
    let mut judged_calls = 0u64;
    let judged = {
        let fut = s.retry_if(
            || {
                judged_calls += 1;
                let n = judged_calls;
                async move { if n < 3 { Err::<u64, u64>(n) } else { Ok(n) } }
            },
            |_: &u64| true,
        );
        block_on(fut)
    };
    assert_eq!(plain, Ok(3));
    assert_eq!(judged, plain);
    assert_eq!(judged_calls, plain_calls);

    let mut plain_calls = 0u64;
    let plain = {
        let fut = s.retry(|| {
            plain_calls += 1;
            let n = plain_calls;
            async move { Err::<(), u64>(n) }
        });
        block_on(fut)
    };
    let mut judged_calls = 0u64;
    let judged = {
        let fut = s.retry_if(
            || {
                judged_calls += 1;
                let n = judged_calls;
                async move { Err::<(), u64>(n) }
            },
            |_: &u64| true,
        );
        block_on(fut)
    };
    assert_eq!(plain, Err(4));
    assert_eq!(judged, plain);
    assert_eq!(judged_calls, 4);
    assert_eq!(plain_calls, 4);
}

#[test]
fn always_asks_for_a_retry() {
    let mut always = Always;
    assert!(always.should_retry(&1u8));
    assert!(always.should_retry(&"error"));
    let mut below_three = |e: &u64| *e < 3;
    assert!(below_three.should_retry(&2));
    assert!(!below_three.should_retry(&3));
}

#[test]
fn closures_are_actions() {
    let mut runs = 0;
    {
        let mut action = || {
            runs += 1;
            async { Ok::<u8, ()>(3) }
        };
        assert_eq!(block_on(action.run()), Ok(3));
        assert_eq!(block_on(action.run()), Ok(3));
    }
    assert_eq!(runs, 2);
}
