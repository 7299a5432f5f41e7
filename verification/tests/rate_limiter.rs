use task_dispatcher::rate::{compute_sleep_nanos, compute_wait_nanos};

#[test]
fn wait_is_a_full_period_right_after_an_admission() {
    // rate 2/s: period is 0.5 s; with no time elapsed the bucket is full.
    let wait: u64 = compute_wait_nanos(0, 2);
    assert_eq!(wait, 500_000_000);
}

#[test]
fn wait_is_the_remaining_fraction_of_the_period() {
    // rate 2/s, 0.2 s elapsed: leak = 0.4, bucket level 0.6, wait 0.3 s.
    let wait: u64 = compute_wait_nanos(200_000_000, 2);
    assert_eq!(wait, 300_000_000);
}

#[test]
fn no_wait_once_a_full_period_has_elapsed() {
    // rate 4/s: period is 0.25 s; exactly one period elapsed.
    assert_eq!(compute_wait_nanos(250_000_000, 4), 0);
    // rate 2/s: well past the period.
    assert_eq!(compute_wait_nanos(600_000_000, 2), 0);
}

#[test]
fn wait_never_grows_as_time_passes() {
    let early: u64 = compute_wait_nanos(100_000_000, 3);
    let late: u64 = compute_wait_nanos(200_000_000, 3);
    assert!(late <= early);
}

#[test]
fn submillisecond_wait_is_rounded_down_to_zero() {
    // rate 1000/s: period is exactly one millisecond.
    assert_eq!(compute_wait_nanos(1, 1000), 999_999);
    assert_eq!(compute_sleep_nanos(1, 1000), 0);
    // A wait of exactly one millisecond is kept.
    assert_eq!(compute_wait_nanos(0, 1000), 1_000_000);
    assert_eq!(compute_sleep_nanos(0, 1000), 1_000_000);
}

#[test]
fn very_high_rates_never_ask_for_a_sleep_above_a_millisecond() {
    // rate above 1000/s: the period itself is below the rounding threshold,
    // so the dispatcher never sleeps.
    assert_eq!(compute_sleep_nanos(0, 100_000), 0);
    assert_eq!(compute_sleep_nanos(0, u32::MAX), 0);
}
