use task_dispatcher::{ConfigError, DispatchAction, Job, Scheduler, SubmitError};

fn admit_or_panic(s: &mut Scheduler, now: u64) -> (u64, u64) {
    match s.dispatch_step(now) {
        DispatchAction::Admit { job, sleep_nanos } => (job.id, sleep_nanos),
        DispatchAction::Idle => panic!("expected an admission, dispatcher is idle"),
        DispatchAction::Exit => panic!("expected an admission, dispatcher exited"),
    }
}

#[test]
fn job_descriptor_keeps_its_identity() {
    let j = Job::new(42);
    assert_eq!(j.id, 42);
}

#[test]
fn construction_rejects_a_zero_rate() {
    assert!(matches!(Scheduler::new(0, 4), Err(ConfigError::ZeroRate)));
    assert!(matches!(Scheduler::new(0, 0), Err(ConfigError::ZeroRate)));
}

#[test]
fn construction_rejects_zero_workers() {
    assert!(matches!(Scheduler::new(5, 0), Err(ConfigError::ZeroWorkers)));
}

#[test]
fn construction_accepts_positive_configuration() {
    let s = Scheduler::new(100, 8).unwrap();
    assert_eq!(s.pending_jobs(), 0);
    assert!(!s.has_terminated());
}

#[test]
fn burst_of_four_at_rate_two_is_spaced_half_a_second_apart() {
    // Four jobs submitted at t=0 with rate 2/s: expected admission times are
    // 0, 0.5 s, 1.0 s and 1.5 s.
    let mut s = Scheduler::new(2, 1).unwrap();
    for id in 0..4u64 {
        s.submit(Job::new(id)).unwrap();
    }
    let mut now: u64 = 0;
    let mut times: Vec<u64> = Vec::new();
    for _ in 0..4usize {
        let (_, sleep) = admit_or_panic(&mut s, now);
        now += sleep;
        times.push(now);
    }
    assert_eq!(times, vec![0, 500_000_000, 1_000_000_000, 1_500_000_000]);
    assert!(matches!(s.dispatch_step(now), DispatchAction::Idle));
}

#[test]
fn jobs_are_admitted_in_submission_order() {
    let mut s = Scheduler::new(1000, 4).unwrap();
    let ids: Vec<u64> = vec![5, 3, 9, 3, 7];
    for id in &ids {
        s.submit(Job::new(*id)).unwrap();
    }
    let mut now: u64 = 0;
    let mut admitted: Vec<u64> = Vec::new();
    for _ in 0..ids.len() {
        let (id, sleep) = admit_or_panic(&mut s, now);
        now += sleep;
        admitted.push(id);
    }
    assert_eq!(admitted, ids);
}

#[test]
fn no_delay_when_submissions_are_slower_than_the_rate() {
    // rate 2/s: period is 0.5 s. A job arriving 0.7 s after the previous
    // admission is admitted at once.
    let mut s = Scheduler::new(2, 1).unwrap();
    s.submit(Job::new(1)).unwrap();
    let (_, first_sleep) = admit_or_panic(&mut s, 0);
    assert_eq!(first_sleep, 0);
    s.submit(Job::new(2)).unwrap();
    let (_, second_sleep) = admit_or_panic(&mut s, 700_000_000);
    assert_eq!(second_sleep, 0);
}

#[test]
fn dispatcher_idles_while_running_with_an_empty_queue() {
    let mut s = Scheduler::new(3, 2).unwrap();
    assert!(matches!(s.dispatch_step(0), DispatchAction::Idle));
    assert!(matches!(s.dispatch_step(10), DispatchAction::Idle));
}

#[test]
fn job_submitted_before_terminate_is_still_admitted() {
    // Submit, then terminate at once: the accepted job is drained through
    // the dispatcher before the loop is allowed to exit.
    let mut s = Scheduler::new(2, 1).unwrap();
    s.submit(Job::new(7)).unwrap();
    s.terminate();
    let (id, _) = admit_or_panic(&mut s, 0);
    assert_eq!(id, 7);
    assert!(matches!(s.dispatch_step(0), DispatchAction::Exit));
}

#[test]
fn exit_comes_only_after_every_accepted_job_was_admitted() {
    let mut s = Scheduler::new(1000, 2).unwrap();
    s.submit(Job::new(1)).unwrap();
    s.submit(Job::new(2)).unwrap();
    s.terminate();
    let mut now: u64 = 0;
    let (first, sleep_a) = admit_or_panic(&mut s, now);
    now += sleep_a;
    let (second, _) = admit_or_panic(&mut s, now);
    assert_eq!((first, second), (1, 2));
    assert_eq!(s.pending_jobs(), 0);
    assert!(matches!(s.dispatch_step(now), DispatchAction::Exit));
}

#[test]
fn submission_after_terminate_is_refused_and_never_admitted() {
    let mut s = Scheduler::new(10, 2).unwrap();
    s.terminate();
    assert!(s.has_terminated());
    let refused = s.submit(Job::new(99));
    assert!(matches!(refused, Err(SubmitError::Terminated)));
    assert_eq!(s.pending_jobs(), 0);
    // The refused job never reaches the dispatch loop.
    assert!(matches!(s.dispatch_step(0), DispatchAction::Exit));
}

#[test]
fn terminate_is_idempotent() {
    let mut s = Scheduler::new(10, 2).unwrap();
    s.terminate();
    s.terminate();
    assert!(s.has_terminated());
    assert!(matches!(s.dispatch_step(0), DispatchAction::Exit));
}

#[test]
fn a_slow_trickle_is_never_slept_for() {
    // Submissions a full second apart at rate 1/s: every sleep is zero.
    let mut s = Scheduler::new(1, 1).unwrap();
    let mut now: u64 = 0;
    for id in 0..3u64 {
        s.submit(Job::new(id)).unwrap();
        let (_, sleep) = admit_or_panic(&mut s, now);
        assert_eq!(sleep, 0);
        now += 1_000_000_000;
    }
}
