use vstd::prelude::*;
use vstd::arithmetic::div_mod::{
    lemma_basic_div, lemma_div_is_ordered, lemma_div_multiples_vanish, lemma_div_nonincreasing,
    lemma_div_pos_is_pos, lemma_fundamental_div_mod, lemma_hoist_over_denominator,
};
use vstd::arithmetic::mul::lemma_mul_inequality;

verus! {

/// Time is measured in integer nanoseconds throughout the dispatch logic.
pub const NANOS_PER_SEC: u64 = 1_000_000_000;

/// Computed waits below one millisecond are rounded down to zero before
/// sleeping, to avoid needless scheduling overhead.
pub const MIN_SLEEP_NANOS: u64 = 1_000_000;

/// Leaky bucket with capacity of one admission-unit: `elapsed * rate`
/// nanosecond-admissions have leaked out since the last admission; if the
/// bucket has not fully drained, the dispatcher must wait for the remainder,
/// `(1 - elapsed * rate / 10^9) / rate` seconds, expressed in nanoseconds.
pub open spec fn wait_nanos_spec(elapsed_nanos: int, rate: int) -> int
    recommends
        rate >= 1,
        elapsed_nanos >= 0,
{
    if elapsed_nanos * rate >= NANOS_PER_SEC {
        0
    } else {
        (NANOS_PER_SEC - elapsed_nanos * rate) / rate
    }
}

/// The wait actually slept: sub-millisecond waits are rounded down to zero.
pub open spec fn sleep_nanos_spec(elapsed_nanos: int, rate: int) -> int
    recommends
        rate >= 1,
        elapsed_nanos >= 0,
{
    if wait_nanos_spec(elapsed_nanos, rate) >= MIN_SLEEP_NANOS {
        wait_nanos_spec(elapsed_nanos, rate)
    } else {
        0
    }
}

/// The nominal spacing between admissions at `rate` admissions per second.
pub open spec fn period_nanos_spec(rate: int) -> int
    recommends
        rate >= 1,
{
    NANOS_PER_SEC as int / rate
}

/// How long the dispatcher must pause before admitting the next job, given
/// the time elapsed since the last admission and the configured maximum
/// admission rate.
pub fn compute_wait_nanos(elapsed_nanos: u64, max_rate: u32) -> (wait: u64)
    requires
        max_rate >= 1,
    ensures
        wait == wait_nanos_spec(elapsed_nanos as int, max_rate as int),
{
    proof {
        lemma_wait_bounds(elapsed_nanos as int, max_rate as int);
    }
    if elapsed_nanos >= NANOS_PER_SEC {
        proof {
            lemma_mul_inequality(1, max_rate as int, elapsed_nanos as int);
        }
        0
    } else {
        proof {
            lemma_mul_inequality(
                max_rate as int,
                u32::MAX as int,
                elapsed_nanos as int,
            );
        }
        let prod: u64 = elapsed_nanos * (max_rate as u64);
        if prod >= NANOS_PER_SEC {
            0
        } else {
            (NANOS_PER_SEC - prod) / (max_rate as u64)
        }
    }
}

/// The wait with the sub-millisecond rounding applied: what the dispatch loop
/// actually sleeps before admitting the next job.
pub fn compute_sleep_nanos(elapsed_nanos: u64, max_rate: u32) -> (sleep: u64)
    requires
        max_rate >= 1,
    ensures
        sleep == sleep_nanos_spec(elapsed_nanos as int, max_rate as int),
{
    let wait = compute_wait_nanos(elapsed_nanos, max_rate);
    if wait >= MIN_SLEEP_NANOS {
        wait
    } else {
        0
    }
}

/// The computed wait is non-negative and never longer than one full second.
pub proof fn lemma_wait_bounds(elapsed: int, rate: int)
    requires
        rate >= 1,
        elapsed >= 0,
    ensures
        0 <= wait_nanos_spec(elapsed, rate) <= NANOS_PER_SEC,
        0 <= sleep_nanos_spec(elapsed, rate) <= wait_nanos_spec(elapsed, rate),
{
    if elapsed * rate < NANOS_PER_SEC {
        lemma_mul_inequality(0, elapsed, rate);
        lemma_div_pos_is_pos(NANOS_PER_SEC - elapsed * rate, rate);
        lemma_div_nonincreasing(NANOS_PER_SEC - elapsed * rate, rate);
    }
}

/// No artificial delay when jobs arrive slower than the configured rate: once
/// a full period has elapsed since the last admission, the computed wait is
/// zero and no sleep is added.
pub proof fn lemma_no_delay_when_slow(elapsed: int, rate: int)
    requires
        rate >= 1,
        elapsed >= period_nanos_spec(rate),
    ensures
        wait_nanos_spec(elapsed, rate) == 0,
        sleep_nanos_spec(elapsed, rate) == 0,
{
    let q = NANOS_PER_SEC as int / rate;
    let m = NANOS_PER_SEC as int % rate;
    lemma_fundamental_div_mod(NANOS_PER_SEC as int, rate);
    if elapsed * rate < NANOS_PER_SEC {
        lemma_mul_inequality(q, elapsed, rate);
        assert(NANOS_PER_SEC - elapsed * rate <= m);
        lemma_mul_inequality(0, elapsed, rate);
        lemma_basic_div(NANOS_PER_SEC - elapsed * rate, rate);
    }
}

/// The computed wait shrinks (or stays) as more time elapses since the last
/// admission; it never grows.
pub proof fn lemma_wait_monotone(elapsed_a: int, elapsed_b: int, rate: int)
    requires
        rate >= 1,
        0 <= elapsed_a <= elapsed_b,
    ensures
        wait_nanos_spec(elapsed_b, rate) <= wait_nanos_spec(elapsed_a, rate),
{
    lemma_wait_bounds(elapsed_a, rate);
    lemma_wait_bounds(elapsed_b, rate);
    lemma_mul_inequality(elapsed_a, elapsed_b, rate);
    if elapsed_b * rate < NANOS_PER_SEC {
        lemma_div_is_ordered(
            NANOS_PER_SEC - elapsed_b * rate,
            NANOS_PER_SEC - elapsed_a * rate,
            rate,
        );
    }
}

/// Elapsed time plus the computed wait always spans at least one full period,
/// and exactly one period whenever the bucket had not yet drained.
pub proof fn lemma_elapsed_plus_wait(elapsed: int, rate: int)
    requires
        rate >= 1,
        elapsed >= 0,
    ensures
        elapsed + wait_nanos_spec(elapsed, rate) >= period_nanos_spec(rate),
        elapsed * rate < NANOS_PER_SEC ==> elapsed + wait_nanos_spec(elapsed, rate)
            == period_nanos_spec(rate),
{
    if elapsed * rate >= NANOS_PER_SEC {
        lemma_div_multiples_vanish(elapsed, rate);
        assert(rate * elapsed == elapsed * rate) by (nonlinear_arith);
        lemma_div_is_ordered(NANOS_PER_SEC as int, elapsed * rate, rate);
    } else {
        lemma_hoist_over_denominator(
            NANOS_PER_SEC - elapsed * rate,
            elapsed,
            rate as nat,
        );
    }
}

/// Elapsed time plus the sleep actually taken falls short of a full period by
/// strictly less than the one-millisecond rounding tolerance.
pub proof fn lemma_elapsed_plus_sleep(elapsed: int, rate: int)
    requires
        rate >= 1,
        elapsed >= 0,
    ensures
        elapsed + sleep_nanos_spec(elapsed, rate)
            > period_nanos_spec(rate) - MIN_SLEEP_NANOS,
{
    lemma_elapsed_plus_wait(elapsed, rate);
    lemma_wait_bounds(elapsed, rate);
}

} // verus!
