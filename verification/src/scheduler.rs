use vstd::prelude::*;

use crate::job::Job;
use crate::rate::{
    compute_sleep_nanos, lemma_elapsed_plus_sleep, lemma_wait_bounds, period_nanos_spec,
    sleep_nanos_spec, MIN_SLEEP_NANOS, NANOS_PER_SEC,
};

verus! {

/// Why construction was refused: the configuration must name a positive
/// admission rate and a positive worker count.
#[derive(Clone, Copy, PartialEq, Eq, Structural, Debug)]
pub enum ConfigError {
    ZeroRate,
    ZeroWorkers,
}

/// Why a submission was refused: the scheduler has already been terminated,
/// so the job is not enqueued and will never execute.
#[derive(Clone, Copy, PartialEq, Eq, Structural, Debug)]
pub enum SubmitError {
    Terminated,
}

/// One admission: the moment the dispatch loop hands a job to the worker
/// pool, as the job's identity and the admission timestamp in nanoseconds.
#[derive(Clone, Copy, PartialEq, Eq, Structural, Debug)]
pub struct Admission {
    pub id: u64,
    pub time_nanos: u64,
}

/// What the dispatch loop must do next, as decided by one step of the
/// scheduler state machine.
#[derive(Clone, Copy, PartialEq, Eq, Structural, Debug)]
pub enum DispatchAction {
    /// Shutdown is complete: every submitted job has been admitted and the
    /// loop must exit.
    Exit,
    /// Nothing is queued and the scheduler is still running: block until the
    /// next submission arrives.
    Idle,
    /// Admit `job` to the worker pool after sleeping `sleep_nanos`
    /// nanoseconds to honor the admission rate.
    Admit { job: Job, sleep_nanos: u64 },
}

/// Two consecutive admissions never run backwards in time, and are spaced at
/// least one period apart up to the sub-millisecond rounding tolerance.
pub open spec fn admission_gap_ok(prev: Admission, cur: Admission, rate: int) -> bool {
    &&& prev.time_nanos <= cur.time_nanos
    &&& cur.time_nanos - prev.time_nanos > period_nanos_spec(rate) - MIN_SLEEP_NANOS
}

/// The rate-limited dispatcher's state machine: a FIFO queue of pending
/// jobs, the leaky-bucket rate state, and the lifecycle flag. The embedding
/// program owns the clock and the worker threads; it feeds submissions and
/// the current time in here and carries out the returned actions.
///
/// Shutdown policy: once terminated, new submissions are refused, but jobs
/// already queued are still drained through the rate gate before the
/// dispatch loop exits, so nothing accepted is ever silently dropped.
pub struct Scheduler {
    max_requests_per_sec: u32,
    num_workers: usize,
    queue: Vec<Job>,
    terminated: bool,
    last_admission_nanos: Option<u64>,
    submitted_log: Ghost<Seq<u64>>,
    admission_log: Ghost<Seq<Admission>>,
}

impl Scheduler {
    /// The configured maximum admission rate, in admissions per second.
    pub closed spec fn rate(&self) -> u32 {
        self.max_requests_per_sec
    }

    /// The configured number of concurrent worker slots.
    pub closed spec fn workers(&self) -> usize {
        self.num_workers
    }

    /// The identities of the jobs currently queued, in FIFO order.
    pub closed spec fn queued(&self) -> Seq<u64> {
        self.queue@.map_values(|j: Job| j.id)
    }

    /// The identities of every job ever accepted by `submit`, in submission
    /// order.
    pub closed spec fn submitted(&self) -> Seq<u64> {
        self.submitted_log@
    }

    /// Every admission so far, in admission order.
    pub closed spec fn admissions(&self) -> Seq<Admission> {
        self.admission_log@
    }

    /// Whether `terminate` has been called.
    pub closed spec fn is_terminated(&self) -> bool {
        self.terminated
    }

    /// The timestamp of the most recent admission, if any.
    pub closed spec fn last_admission(&self) -> Option<u64> {
        self.last_admission_nanos
    }

    /// The identities of the admitted jobs, in admission order.
    pub open spec fn admitted_ids(&self) -> Seq<u64> {
        self.admissions().map_values(|a: Admission| a.id)
    }

    /// Well-formedness: positive configuration; every submitted job is
    /// either admitted already or still queued, with order preserved; the
    /// rate state mirrors the admission log; and the admission timestamps
    /// respect the configured rate.
    pub open spec fn wf(&self) -> bool {
        &&& self.rate() >= 1
        &&& self.workers() >= 1
        &&& self.admitted_ids() + self.queued() == self.submitted()
        &&& (match self.last_admission() {
            Option::None => self.admissions().len() == 0,
            Option::Some(t) => self.admissions().len() > 0
                && self.admissions().last().time_nanos == t,
        })
        &&& forall|i: int|
            1 <= i < self.admissions().len() ==> admission_gap_ok(
                self.admissions()[i - 1],
                #[trigger] self.admissions()[i],
                self.rate() as int,
            )
    }

    /// The sleep one dispatch step takes at time `now`: zero before the
    /// first admission, else the leaky-bucket wait with the sub-millisecond
    /// rounding applied.
    pub open spec fn step_sleep_nanos(&self, now: int) -> int {
        match self.last_admission() {
            Option::None => 0,
            Option::Some(t) => sleep_nanos_spec(now - t, self.rate() as int),
        }
    }

    /// Creates a scheduler in the `Running` state, with an empty queue and
    /// no admissions yet. Construction is refused exactly when the rate or
    /// the worker count is zero.
    pub fn new(max_requests_per_sec: u32, num_workers: usize) -> (r: Result<
        Scheduler,
        ConfigError,
    >)
        ensures
            max_requests_per_sec == 0 ==> r == Result::<Scheduler, ConfigError>::Err(
                ConfigError::ZeroRate,
            ),
            max_requests_per_sec >= 1 && num_workers == 0 ==> r == Result::<
                Scheduler,
                ConfigError,
            >::Err(ConfigError::ZeroWorkers),
            max_requests_per_sec >= 1 && num_workers >= 1 ==> (r matches Result::Ok(s)
                && s.wf()
                && s.rate() == max_requests_per_sec
                && s.workers() == num_workers
                && !s.is_terminated()
                && s.submitted() == Seq::<u64>::empty()
                && s.queued() == Seq::<u64>::empty()
                && s.admissions() == Seq::<Admission>::empty()
                && s.last_admission() == Option::<u64>::None),
    {
        if max_requests_per_sec == 0 {
            Err(ConfigError::ZeroRate)
        } else if num_workers == 0 {
            Err(ConfigError::ZeroWorkers)
        } else {
            let s = Scheduler {
                max_requests_per_sec,
                num_workers,
                queue: Vec::new(),
                terminated: false,
                last_admission_nanos: None,
                submitted_log: Ghost(Seq::empty()),
                admission_log: Ghost(Seq::empty()),
            };
            proof {
                assert(s.admitted_ids() + s.queued() =~= s.submitted());
                assert(s.queued() =~= Seq::<u64>::empty());
            }
            Ok(s)
        }
    }

    /// Enqueues `job` at the tail of the FIFO queue, unless the scheduler
    /// has been terminated, in which case the job is refused and no state
    /// changes.
    pub fn submit(&mut self, job: Job) -> (r: Result<(), SubmitError>)
        requires
            old(self).wf(),
        ensures
            final(self).wf(),
            final(self).rate() == old(self).rate(),
            final(self).workers() == old(self).workers(),
            final(self).is_terminated() == old(self).is_terminated(),
            final(self).admissions() == old(self).admissions(),
            final(self).last_admission() == old(self).last_admission(),
            !old(self).is_terminated() ==> r == Result::<(), SubmitError>::Ok(())
                && final(self).queued() == old(self).queued().push(job.id)
                && final(self).submitted() == old(self).submitted().push(job.id),
            old(self).is_terminated() ==> r == Result::<(), SubmitError>::Err(
                SubmitError::Terminated,
            ) && *final(self) == *old(self),
    {
        if self.terminated {
            Err(SubmitError::Terminated)
        } else {
            let ghost pre = *self;
            self.queue.push(job);
            proof {
                self.submitted_log@ = self.submitted_log@.push(job.id);
                assert(self.queued() =~= pre.queued().push(job.id));
                assert(self.admitted_ids() + self.queued() =~= self.submitted());
            }
            Ok(())
        }
    }

    /// Moves the scheduler out of the `Running` state. Idempotent: a second
    /// call changes nothing. Jobs already queued remain queued, to be
    /// drained by the remaining dispatch steps; new submissions are refused
    /// from now on.
    pub fn terminate(&mut self)
        requires
            old(self).wf(),
        ensures
            final(self).wf(),
            final(self).is_terminated(),
            final(self).rate() == old(self).rate(),
            final(self).workers() == old(self).workers(),
            final(self).queued() == old(self).queued(),
            final(self).submitted() == old(self).submitted(),
            final(self).admissions() == old(self).admissions(),
            final(self).last_admission() == old(self).last_admission(),
    {
        self.terminated = true;
    }

    /// One step of the dispatch loop, taken at time `now_nanos`: admit the
    /// job at the head of the queue (after the rate-limit sleep), or report
    /// that the loop should block for the next submission, or that shutdown
    /// is complete.
    ///
    /// The admission timestamp recorded for an admitted job is
    /// `now_nanos + sleep_nanos`, the time at which the loop, having slept,
    /// hands the job to the worker pool.
    pub fn dispatch_step(&mut self, now_nanos: u64) -> (action: DispatchAction)
        requires
            old(self).wf(),
            old(self).last_admission() matches Option::Some(t) ==> t <= now_nanos,
            now_nanos <= u64::MAX - NANOS_PER_SEC,
        ensures
            final(self).wf(),
            final(self).rate() == old(self).rate(),
            final(self).workers() == old(self).workers(),
            final(self).is_terminated() == old(self).is_terminated(),
            final(self).submitted() == old(self).submitted(),
            (action is Exit) <==> (old(self).is_terminated() && old(self).queued().len() == 0),
            (action is Idle) <==> (!old(self).is_terminated() && old(self).queued().len() == 0),
            old(self).queued().len() == 0 ==> *final(self) == *old(self),
            action is Exit ==> final(self).admitted_ids() == final(self).submitted(),
            old(self).queued().len() > 0 ==> (action matches DispatchAction::Admit {
                job,
                sleep_nanos,
            } && job.id == old(self).queued()[0]
                && sleep_nanos == old(self).step_sleep_nanos(now_nanos as int)
                && final(self).queued() == old(self).queued().drop_first()
                && final(self).admissions() == old(self).admissions().push(
                (Admission { id: job.id, time_nanos: (now_nanos + sleep_nanos) as u64 }),
            )
                && final(self).last_admission() == Option::Some(
                (now_nanos + sleep_nanos) as u64,
            )),
    {
        if self.queue.len() == 0 {
            proof {
                if self.terminated {
                    assert(self.admitted_ids() =~= self.submitted());
                }
            }
            if self.terminated {
                DispatchAction::Exit
            } else {
                DispatchAction::Idle
            }
        } else {
            let ghost pre = *self;
            let job = self.queue.remove(0);
            let sleep: u64 = match self.last_admission_nanos {
                None => 0,
                Some(t) => compute_sleep_nanos(now_nanos - t, self.max_requests_per_sec),
            };
            proof {
                match pre.last_admission() {
                    Option::Some(t) => {
                        lemma_wait_bounds(now_nanos - t, pre.rate() as int);
                        lemma_elapsed_plus_sleep(now_nanos - t, pre.rate() as int);
                    },
                    Option::None => {},
                }
            }
            let admit_time: u64 = now_nanos + sleep;
            self.last_admission_nanos = Some(admit_time);
            let ghost adm = Admission { id: job.id, time_nanos: admit_time };
            proof {
                self.admission_log@ = self.admission_log@.push(adm);
                assert(job.id == pre.queued()[0]);
                assert(self.queued() =~= pre.queued().drop_first());
                assert(self.admitted_ids() =~= pre.admitted_ids().push(job.id));
                assert(self.admitted_ids() + self.queued() =~= self.submitted());
            }
            DispatchAction::Admit { job, sleep_nanos: sleep }
        }
    }

    /// How many accepted jobs are still waiting for admission.
    pub fn pending_jobs(&self) -> (n: usize)
        ensures
            n == self.queued().len(),
    {
        self.queue.len()
    }

    /// Whether `terminate` has been called on this scheduler.
    pub fn has_terminated(&self) -> (b: bool)
        ensures
            b == self.is_terminated(),
    {
        self.terminated
    }
}

/// FIFO preserved end-to-end: the jobs admitted so far are exactly the first
/// jobs submitted, in the same order — admission order equals submission
/// order, and no job is lost, duplicated or reordered on the way.
pub proof fn lemma_fifo_admission_order(s: &Scheduler)
    requires
        s.wf(),
    ensures
        s.admitted_ids() == s.submitted().take(s.admitted_ids().len() as int),
        s.submitted() == s.admitted_ids() + s.queued(),
{
    assert(s.admitted_ids() =~= s.submitted().take(s.admitted_ids().len() as int));
}

/// The admission rate never exceeds the configured maximum: consecutive
/// admission timestamps are spaced at least one full period apart, short of
/// it by strictly less than the one-millisecond rounding tolerance.
pub proof fn lemma_rate_limit_respected(s: &Scheduler, i: int)
    requires
        s.wf(),
        1 <= i < s.admissions().len(),
    ensures
        s.admissions()[i - 1].time_nanos <= s.admissions()[i].time_nanos,
        s.admissions()[i].time_nanos - s.admissions()[i - 1].time_nanos
            > period_nanos_spec(s.rate() as int) - MIN_SLEEP_NANOS,
{
}

/// The long-run form of the rate bound: across any window of the admission
/// log, `k` consecutive admissions span at least `k` rate periods, each
/// shortened by no more than the one-millisecond rounding tolerance.
pub proof fn lemma_rate_limit_window(s: &Scheduler, i: int, j: int)
    requires
        s.wf(),
        0 <= i <= j < s.admissions().len(),
    ensures
        s.admissions()[j].time_nanos - s.admissions()[i].time_nanos >= (j - i) * (
        period_nanos_spec(s.rate() as int) - MIN_SLEEP_NANOS + 1),
    decreases j - i,
{
    let g = period_nanos_spec(s.rate() as int) - MIN_SLEEP_NANOS + 1;
    if i < j {
        lemma_rate_limit_window(s, i, j - 1);
        lemma_rate_limit_respected(s, j);
        assert((j - 1 - i) * g + g == (j - i) * g) by (nonlinear_arith);
    } else {
        assert((j - i) * g == 0) by (nonlinear_arith)
            requires
                i == j,
        ;
    }
}

} // verus!
