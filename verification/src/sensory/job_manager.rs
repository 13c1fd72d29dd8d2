//! Selects which configured tip is presented, and when the next one takes over.
//!
//! Time is measured in nanoseconds elapsed since the application started, the
//! exact value of a `std::time::Duration` (`Duration::as_nanos`).

use crate::job::JobConfig;
use vstd::prelude::*;

verus! {

/// Nanoseconds in one second.
pub const NANOS_PER_SEC: u128 = 1_000_000_000;

/// The largest span a `Duration` holds, in nanoseconds.
pub const DURATION_MAX_NANOS: u128 = 18_446_744_073_709_551_615_999_999_999;

/// Addition that stops at the largest `Duration`, as `Duration::saturating_add` does.
pub open spec fn sat_add(a: int, b: int) -> int {
    if a + b <= DURATION_MAX_NANOS { a + b } else { DURATION_MAX_NANOS as int }
}

fn saturating_add_nanos(a: u128, b: u128) -> (r: u128)
    requires
        a <= DURATION_MAX_NANOS,
        b <= DURATION_MAX_NANOS,
    ensures
        r == sat_add(a as int, b as int),
{
    if a <= DURATION_MAX_NANOS - b {
        a + b
    } else {
        DURATION_MAX_NANOS
    }
}

/// A tip interval or show time, given in whole seconds, in nanoseconds.
pub open spec fn secs_to_nanos(secs: u64) -> int {
    secs * NANOS_PER_SEC
}

fn secs_to_nanos_exec(secs: u64) -> (r: u128)
    ensures
        r == secs_to_nanos(secs),
        r <= DURATION_MAX_NANOS,
{
    assert(secs * NANOS_PER_SEC <= DURATION_MAX_NANOS) by (nonlinear_arith)
        requires
            secs <= u64::MAX,
    ;
    (secs as u128) * NANOS_PER_SEC
}

/// The tip on screen and the tip expected after it.
#[derive(Clone, Copy, Debug, PartialEq, Eq, Structural)]
pub struct ActiveJob {
    pub current_index: usize,
    pub preview_next_index: usize,
    pub started_at: u128,
    pub ends_at: u128,
}

impl ActiveJob {
    /// Time since this presentation started, zero before it.
    pub fn elapsed_at(&self, now: u128) -> (r: u128)
        ensures
            r == (if now >= self.started_at { now - self.started_at } else { 0 }),
    {
        if now >= self.started_at {
            now - self.started_at
        } else {
            0
        }
    }
}

/// Read-only scheduling result consumed by presentation.
pub struct ActiveJobState {
    pub active_job: Option<ActiveJob>,
}

impl ActiveJobState {
    pub fn default() -> (s: Self)
        ensures
            s.active_job is None,
    {
        ActiveJobState { active_job: None }
    }

    /// The index of the tip on screen, if any.
    pub fn current_index(&self) -> (r: Option<usize>)
        ensures
            r == (match self.active_job {
                Some(job) => Some(job.current_index),
                None => None::<usize>,
            }),
    {
        match &self.active_job {
            Some(job) => Some(job.current_index),
            None => None,
        }
    }
}

/// A replacement is committed only when the scheduling result changes.
pub enum JobUpdate {
    Unchanged,
    Replace(Option<ActiveJob>),
}

/// Runtime scheduling state for one configured job.
#[derive(Clone, Copy, Debug, PartialEq, Eq, Structural)]
pub struct JobRuntimeState {
    /// `None` means the job has never completed and is immediately eligible.
    pub finished_at: Option<u128>,
}

/// The moment a job becomes eligible again: when its interval has passed after it
/// last finished, or from the start when it never finished.
pub open spec fn spec_eligible_at(state: JobRuntimeState, interval: u64) -> int {
    match state.finished_at {
        Some(f) => sat_add(f as int, secs_to_nanos(interval)),
        None => 0,
    }
}

impl JobRuntimeState {
    pub open spec fn wf(self) -> bool {
        match self.finished_at {
            Some(f) => f <= DURATION_MAX_NANOS,
            None => true,
        }
    }

    pub fn eligible_at(&self, interval_secs: u64) -> (r: u128)
        requires
            self.wf(),
        ensures
            r == spec_eligible_at(*self, interval_secs),
    {
        match self.finished_at {
            Some(f) => saturating_add_nanos(f, secs_to_nanos_exec(interval_secs)),
            None => 0,
        }
    }

    pub fn is_eligible_at(&self, now: u128, interval_secs: u64) -> (b: bool)
        requires
            self.wf(),
        ensures
            b == (now >= spec_eligible_at(*self, interval_secs)),
    {
        now >= self.eligible_at(interval_secs)
    }
}

/// The ordering key of a candidate: earliest eligibility first, then the shorter
/// interval, then the earlier configuration position.
pub open spec fn key_less(a: (int, int, int), b: (int, int, int)) -> bool {
    ||| a.0 < b.0
    ||| (a.0 == b.0 && a.1 < b.1)
    ||| (a.0 == b.0 && a.1 == b.1 && a.2 < b.2)
}

/// Selects which configured job should be presented next.
pub struct JobManager {
    jobs: Vec<JobRuntimeState>,
}

impl JobManager {
    /// The runtime state of every configured job, in configuration order.
    pub closed spec fn jobs(&self) -> Seq<JobRuntimeState> {
        self.jobs@
    }

    /// Every recorded finish time is a valid `Duration`.
    pub open spec fn wf(&self) -> bool {
        forall|i: int| 0 <= i < self.jobs().len() ==> (#[trigger] self.jobs()[i]).wf()
    }

    pub fn default() -> (m: Self)
        ensures
            m.jobs().len() == 0,
            m.wf(),
    {
        JobManager { jobs: Vec::new() }
    }
}

/// The key by which job `i` competes.
pub open spec fn candidate_key(
    jobs: Seq<JobRuntimeState>,
    config: &JobConfig,
    i: int,
) -> (int, int, int) {
    (spec_eligible_at(jobs[i], config.tip(i).interval), config.tip(i).interval as int, i)
}

/// Job `i` may be presented at `now`: it exists, is not the job that just
/// completed, and its interval has passed.
pub open spec fn is_candidate(
    jobs: Seq<JobRuntimeState>,
    config: &JobConfig,
    now: int,
    completed: Option<usize>,
    i: int,
) -> bool {
    &&& 0 <= i < config.len()
    &&& completed != Some(i as usize)
    &&& now >= spec_eligible_at(jobs[i], config.tip(i).interval)
}

/// Job `i` is the candidate with the smallest key.
pub open spec fn is_best_candidate(
    jobs: Seq<JobRuntimeState>,
    config: &JobConfig,
    now: int,
    completed: Option<usize>,
    i: int,
) -> bool {
    &&& is_candidate(jobs, config, now, completed, i)
    &&& forall|j: int|
        #[trigger] is_candidate(jobs, config, now, completed, j) ==> !key_less(
            candidate_key(jobs, config, j),
            candidate_key(jobs, config, i),
        )
}

/// The job chosen next: the best candidate; when no other job is eligible, the job
/// that just completed, so that the display never waits.
pub open spec fn spec_select_next(
    jobs: Seq<JobRuntimeState>,
    config: &JobConfig,
    now: int,
    completed: Option<usize>,
) -> Option<usize> {
    if exists|i: int| is_candidate(jobs, config, now, completed, i) {
        Some((choose|i: int| is_best_candidate(jobs, config, now, completed, i)) as usize)
    } else {
        match completed {
            Some(c) => if c < config.len() { Some(c) } else { None },
            None => None,
        }
    }
}

/// At most one candidate is best: the keys of two jobs differ in their position.
pub proof fn lemma_best_candidate_unique(
    jobs: Seq<JobRuntimeState>,
    config: &JobConfig,
    now: int,
    completed: Option<usize>,
    i: int,
    j: int,
)
    requires
        is_best_candidate(jobs, config, now, completed, i),
        is_best_candidate(jobs, config, now, completed, j),
    ensures
        i == j,
{
    assert(!key_less(candidate_key(jobs, config, j), candidate_key(jobs, config, i)));
    assert(!key_less(candidate_key(jobs, config, i), candidate_key(jobs, config, j)));
}

/// Whenever a candidate exists, a best one exists.
pub proof fn lemma_best_candidate_exists(
    jobs: Seq<JobRuntimeState>,
    config: &JobConfig,
    now: int,
    completed: Option<usize>,
    k: int,
)
    requires
        is_candidate(jobs, config, now, completed, k),
    ensures
        exists|i: int| is_best_candidate(jobs, config, now, completed, i),
{
    let n = config.len() as int;
    lemma_best_candidate_exists_bounded(jobs, config, now, completed, k, n);
    let b = choose|i: int|
        #![trigger is_candidate(jobs, config, now, completed, i)]
        is_candidate(jobs, config, now, completed, i) && i < n && forall|j: int|
            #[trigger] is_candidate(jobs, config, now, completed, j) && j < n
                ==> !key_less(candidate_key(jobs, config, j), candidate_key(jobs, config, i));
    assert(is_best_candidate(jobs, config, now, completed, b));
}

proof fn lemma_best_candidate_exists_bounded(
    jobs: Seq<JobRuntimeState>,
    config: &JobConfig,
    now: int,
    completed: Option<usize>,
    k: int,
    n: int,
)
    requires
        is_candidate(jobs, config, now, completed, k),
        k < n,
        n <= config.len(),
    ensures
        exists|i: int|
            #![trigger is_candidate(jobs, config, now, completed, i)]
            is_candidate(jobs, config, now, completed, i) && i < n && forall|j: int|
                #[trigger] is_candidate(jobs, config, now, completed, j) && j < n ==> !key_less(
                    candidate_key(jobs, config, j),
                    candidate_key(jobs, config, i),
                ),
    decreases n,
{
    if n - 1 == k {
        if exists|i: int| is_candidate(jobs, config, now, completed, i) && i < k {
            let i0 = choose|i: int| is_candidate(jobs, config, now, completed, i) && i < k;
            lemma_best_candidate_exists_bounded(jobs, config, now, completed, i0, k);
            let b = choose|i: int|
                #![trigger is_candidate(jobs, config, now, completed, i)]
                is_candidate(jobs, config, now, completed, i) && i < k && forall|j: int|
                    #[trigger] is_candidate(jobs, config, now, completed, j) && j < k
                        ==> !key_less(candidate_key(jobs, config, j), candidate_key(jobs, config, i));
            if key_less(candidate_key(jobs, config, k), candidate_key(jobs, config, b)) {
                assert forall|j: int|
                    #[trigger] is_candidate(jobs, config, now, completed, j) && j < n implies !key_less(
                        candidate_key(jobs, config, j),
                        candidate_key(jobs, config, k),
                    ) by {
                    if j < k {
                        assert(!key_less(candidate_key(jobs, config, j), candidate_key(jobs, config, b)));
                    }
                }
            } else {
                assert forall|j: int|
                    #[trigger] is_candidate(jobs, config, now, completed, j) && j < n implies !key_less(
                        candidate_key(jobs, config, j),
                        candidate_key(jobs, config, b),
                    ) by {
                    if j < k {
                    }
                }
            }
        } else {
            assert forall|j: int|
                #[trigger] is_candidate(jobs, config, now, completed, j) && j < n implies !key_less(
                    candidate_key(jobs, config, j),
                    candidate_key(jobs, config, k),
                ) by {
                if j < k {
                    assert(false);
                }
            }
        }
    } else {
        lemma_best_candidate_exists_bounded(jobs, config, now, completed, k, n - 1);
        let b = choose|i: int|
            #![trigger is_candidate(jobs, config, now, completed, i)]
            is_candidate(jobs, config, now, completed, i) && i < n - 1 && forall|j: int|
                #[trigger] is_candidate(jobs, config, now, completed, j) && j < n - 1
                    ==> !key_less(candidate_key(jobs, config, j), candidate_key(jobs, config, i));
        let last = n - 1;
        if is_candidate(jobs, config, now, completed, last) && key_less(
            candidate_key(jobs, config, last),
            candidate_key(jobs, config, b),
        ) {
            assert forall|j: int|
                #[trigger] is_candidate(jobs, config, now, completed, j) && j < n implies !key_less(
                    candidate_key(jobs, config, j),
                    candidate_key(jobs, config, last),
                ) by {
                if j < last {
                    assert(!key_less(candidate_key(jobs, config, j), candidate_key(jobs, config, b)));
                }
            }
        } else {
            assert forall|j: int|
                #[trigger] is_candidate(jobs, config, now, completed, j) && j < n implies !key_less(
                    candidate_key(jobs, config, j),
                    candidate_key(jobs, config, b),
                ) by {
                if j == last {
                }
            }
        }
    }
}


impl JobManager {
    /// The job to present at `now` after `completed_index` (if any) finished.
    fn select_next(
        &self,
        config: &JobConfig,
        now: u128,
        completed_index: Option<usize>,
    ) -> (r: Option<usize>)
        requires
            self.wf(),
            self.jobs().len() >= config.len(),
        ensures
            r == spec_select_next(self.jobs(), config, now as int, completed_index),
            r matches Some(i) ==> i < config.len(),
    {
        let ghost jobs = self.jobs();
        let n = config.0.tips.len();
        let mut best: Option<usize> = None;
        let mut best_eligible: u128 = 0;
        let mut best_interval: u64 = 0;
        let mut i: usize = 0;
        while i < n
            invariant
                n == config.len(),
                jobs == self.jobs(),
                self.wf(),
                jobs.len() >= n,
                i <= n,
                best matches None ==> forall|j: int|
                    0 <= j < i ==> !#[trigger] is_candidate(jobs, config, now as int, completed_index, j),
                best matches Some(b) ==> {
                    &&& b < i
                    &&& is_candidate(jobs, config, now as int, completed_index, b as int)
                    &&& candidate_key(jobs, config, b as int) == (
                        best_eligible as int,
                        best_interval as int,
                        b as int,
                    )
                    &&& forall|j: int|
                        0 <= j < i && #[trigger] is_candidate(jobs, config, now as int, completed_index, j)
                            ==> !key_less(
                            candidate_key(jobs, config, j),
                            candidate_key(jobs, config, b as int),
                        )
                },
            decreases n - i,
        {
            let is_completed = match completed_index {
                Some(c) => c == i,
                None => false,
            };
            let interval = config.0.tips[i].interval;
            proof {
                assert(self.jobs()[i as int].wf());
            }
            let eligible = self.jobs[i].eligible_at(interval);
            if !is_completed && now >= eligible {
                let better = match best {
                    None => true,
                    Some(_) => eligible < best_eligible || (eligible == best_eligible
                        && interval < best_interval),
                };
                if better {
                    best = Some(i);
                    best_eligible = eligible;
                    best_interval = interval;
                }
            }
            i = i + 1;
        }
        match best {
            Some(b) => {
                proof {
                    assert(is_best_candidate(jobs, config, now as int, completed_index, b as int));
                    let c = choose|k: int| is_best_candidate(jobs, config, now as int, completed_index, k);
                    lemma_best_candidate_unique(jobs, config, now as int, completed_index, b as int, c);
                }
                Some(b)
            },
            None => {
                match completed_index {
                    Some(c) => if c < n { Some(c) } else { None },
                    None => None,
                }
            },
        }
    }
}


/// A job that has never completed.
pub open spec fn fresh_job() -> JobRuntimeState {
    JobRuntimeState { finished_at: None }
}

/// The runtime states resized to `n` jobs: surplus states are dropped and new jobs
/// start fresh.
pub open spec fn spec_synchronized(jobs: Seq<JobRuntimeState>, n: nat) -> Seq<JobRuntimeState> {
    Seq::new(n, |i: int| if i < jobs.len() { jobs[i] } else { fresh_job() })
}

/// The presentation of tip `index` starting at `now`, with the tip expected to
/// follow it when it ends.
pub open spec fn spec_create_job(
    jobs: Seq<JobRuntimeState>,
    config: &JobConfig,
    index: usize,
    now: int,
) -> ActiveJob {
    let ends_at = sat_add(now, secs_to_nanos(config.tip(index as int).spec_show_time()));
    ActiveJob {
        current_index: index,
        preview_next_index: spec_select_next(jobs, config, ends_at, Some(index))->0,
        started_at: now as u128,
        ends_at: ends_at as u128,
    }
}

/// The job states after the presentation of job `c` completed at `now`.
pub open spec fn spec_finish(jobs: Seq<JobRuntimeState>, c: int, now: int) -> Seq<JobRuntimeState> {
    jobs.update(c, JobRuntimeState { finished_at: Some(now as u128) })
}

/// One scheduling step at `now`: the job states afterwards and the update to commit.
pub open spec fn spec_eval_update(
    jobs: Seq<JobRuntimeState>,
    config: &JobConfig,
    active: Option<ActiveJob>,
    now: int,
) -> (Seq<JobRuntimeState>, JobUpdate) {
    let synced = spec_synchronized(jobs, config.len());
    if config.len() == 0 {
        (synced, if active is Some { JobUpdate::Replace(None) } else { JobUpdate::Unchanged })
    } else {
        match active {
            None => {
                let next = spec_select_next(synced, config, now, None)->0;
                (synced, JobUpdate::Replace(Some(spec_create_job(synced, config, next, now))))
            },
            Some(a) => if now < a.ends_at {
                (synced, JobUpdate::Unchanged)
            } else {
                let finished = spec_finish(synced, a.current_index as int, now);
                let next = spec_select_next(finished, config, now, Some(a.current_index))->0;
                (finished, JobUpdate::Replace(Some(spec_create_job(finished, config, next, now))))
            },
        }
    }
}

/// The scheduler's state and the committed result agree: without a job on screen
/// no job has finished yet, and a job on screen is one of the configured tips.
pub open spec fn consistent(
    jobs: Seq<JobRuntimeState>,
    config: &JobConfig,
    active: Option<ActiveJob>,
) -> bool {
    &&& forall|i: int| 0 <= i < jobs.len() ==> (#[trigger] jobs[i]).wf()
    &&& active is None ==> forall|i: int|
        0 <= i < jobs.len() ==> (#[trigger] jobs[i]).finished_at is None
    &&& (config.len() > 0 && active is Some) ==> active->0.current_index < config.len()
}

/// A scheduling step at `now` can be taken: when no tip is on screen, some tip is
/// eligible to start; when the tip on screen has ended, it is one of the
/// configured tips. (Otherwise the step would find no tip to show, or would look
/// up a tip that does not exist.)
pub open spec fn schedulable(
    jobs: Seq<JobRuntimeState>,
    config: &JobConfig,
    active: Option<ActiveJob>,
    now: int,
) -> bool {
    &&& (config.len() > 0 && active is None) ==> exists|i: int|
        is_candidate(spec_synchronized(jobs, config.len()), config, now, None, i)
    &&& match active {
        Some(a) => (config.len() > 0 && now >= a.ends_at) ==> a.current_index < config.len(),
        None => true,
    }
}

/// A consistent scheduler can always take its next step: with no tip on screen no
/// tip has finished, so every tip is eligible.
pub proof fn lemma_consistent_is_schedulable(
    jobs: Seq<JobRuntimeState>,
    config: &JobConfig,
    active: Option<ActiveJob>,
    now: int,
)
    requires
        consistent(jobs, config, active),
        now >= 0,
    ensures
        schedulable(jobs, config, active, now),
{
    if config.len() > 0 && active is None {
        let synced = spec_synchronized(jobs, config.len());
        if jobs.len() > 0 {
            assert(jobs[0].finished_at is None);
        }
        assert(synced[0] == fresh_job() || synced[0] == jobs[0]);
        assert(is_candidate(synced, config, now, None, 0));
    }
}

impl JobManager {
    fn synchronize_job_count(&mut self, job_count: usize)
        requires
            old(self).wf(),
        ensures
            final(self).jobs() == spec_synchronized(old(self).jobs(), job_count as nat),
            final(self).wf(),
    {
        let ghost old_jobs = self.jobs@;
        self.jobs.resize(job_count, JobRuntimeState { finished_at: None });
        proof {
            assert(self.jobs@ =~= spec_synchronized(old_jobs, job_count as nat));
        }
    }

    fn create_job(&self, config: &JobConfig, index: usize, now: u128) -> (job: ActiveJob)
        requires
            self.wf(),
            self.jobs().len() >= config.len(),
            index < config.len(),
            now <= DURATION_MAX_NANOS,
        ensures
            job == spec_create_job(self.jobs(), config, index, now as int),
            job.current_index < config.len(),
            job.preview_next_index < config.len(),
            job.started_at <= job.ends_at <= DURATION_MAX_NANOS,
            job.current_index == index,
            job.started_at == now,
            job.ends_at == sat_add(
                now as int,
                config.tip(index as int).spec_show_time() * NANOS_PER_SEC,
            ),
    {
        let duration = secs_to_nanos_exec(config.0.tips[index].show_time());
        let ends_at = saturating_add_nanos(now, duration);
        let preview = self.select_next(config, ends_at, Some(index));
        // A non-empty configuration always falls back to the selected job.
        let preview_next_index = match preview {
            Some(p) => p,
            None => index,
        };
        ActiveJob { current_index: index, preview_next_index, started_at: now, ends_at }
    }

    /// One scheduling step at `now`; the returned update is committed by the caller.
    pub fn eval_update_at(
        &mut self,
        config: &JobConfig,
        state: &ActiveJobState,
        now: u128,
    ) -> (update: JobUpdate)
        requires
            now <= DURATION_MAX_NANOS,
            old(self).wf(),
            schedulable(old(self).jobs(), config, state.active_job, now as int),
        ensures
            (final(self).jobs(), update) == spec_eval_update(
                old(self).jobs(),
                config,
                state.active_job,
                now as int,
            ),
            final(self).jobs().len() == config.len(),
            final(self).wf(),
            consistent(old(self).jobs(), config, state.active_job) ==> match update {
                JobUpdate::Unchanged => consistent(final(self).jobs(), config, state.active_job),
                JobUpdate::Replace(next) => consistent(final(self).jobs(), config, next),
            },
            update matches JobUpdate::Replace(Some(job)) ==> {
                &&& job.current_index < config.len()
                &&& job.preview_next_index < config.len()
                &&& job.started_at == now
                &&& job.started_at <= job.ends_at <= DURATION_MAX_NANOS
                &&& job.ends_at == sat_add(
                    now as int,
                    config.tip(job.current_index as int).spec_show_time() * NANOS_PER_SEC,
                )
            },
    {
        let ghost old_jobs = self.jobs();
        let n = config.0.tips.len();
        self.synchronize_job_count(n);
        let ghost synced = self.jobs();
        if config.is_empty() {
            return if state.active_job.is_some() {
                JobUpdate::Replace(None)
            } else {
                JobUpdate::Unchanged
            };
        }
        match &state.active_job {
            None => {
                let next = self.select_next(config, now, None);
                let next_index = match next {
                    Some(i) => i,
                    None => 0,
                };
                JobUpdate::Replace(Some(self.create_job(config, next_index, now)))
            },
            Some(active_job) => {
                if now < active_job.ends_at {
                    return JobUpdate::Unchanged;
                }
                let completed_index = active_job.current_index;
                // The interval starts after the presentation completes; the job's own
                // show time does not consume its next interval.
                self.jobs.set(completed_index, JobRuntimeState { finished_at: Some(now) });
                proof {
                    assert(self.jobs() =~= spec_finish(synced, completed_index as int, now as int));
                }
                let next = self.select_next(config, now, Some(completed_index));
                let next_index = match next {
                    Some(i) => i,
                    None => completed_index,
                };
                JobUpdate::Replace(Some(self.create_job(config, next_index, now)))
            },
        }
    }
}

/// Runs one scheduling step and commits its result; returns whether the committed
/// state changed.
pub fn process_jobs(
    now: u128,
    config: &JobConfig,
    manager: &mut JobManager,
    state: &mut ActiveJobState,
) -> (changed: bool)
    requires
        now <= DURATION_MAX_NANOS,
        old(manager).wf(),
        schedulable(old(manager).jobs(), config, old(state).active_job, now as int),
    ensures
        ({
            let (jobs, update) = spec_eval_update(
                old(manager).jobs(),
                config,
                old(state).active_job,
                now as int,
            );
            &&& final(manager).jobs() == jobs
            &&& changed == (update is Replace)
            &&& final(state).active_job == match update {
                JobUpdate::Unchanged => old(state).active_job,
                JobUpdate::Replace(next) => next,
            }
        }),
        final(manager).wf(),
        consistent(old(manager).jobs(), config, old(state).active_job) ==> consistent(
            final(manager).jobs(),
            config,
            final(state).active_job,
        ),
{
    let update = manager.eval_update_at(config, state, now);
    match update {
        JobUpdate::Unchanged => false,
        JobUpdate::Replace(next) => {
            state.active_job = next;
            true
        },
    }
}


/// Scheduling decisions after `completed` depend on the other jobs only: how the
/// completed job itself is recorded does not change the choice.
pub proof fn lemma_select_ignores_completed(
    jobs1: Seq<JobRuntimeState>,
    jobs2: Seq<JobRuntimeState>,
    config: &JobConfig,
    now: int,
    c: usize,
)
    requires
        jobs1.len() == jobs2.len(),
        jobs1.len() >= config.len(),
        forall|i: int| 0 <= i < jobs1.len() && i != c ==> jobs1[i] == jobs2[i],
    ensures
        spec_select_next(jobs1, config, now, Some(c)) == spec_select_next(
            jobs2,
            config,
            now,
            Some(c),
        ),
{
    assert forall|i: int|
        is_candidate(jobs1, config, now, Some(c), i) == is_candidate(
            jobs2,
            config,
            now,
            Some(c),
            i,
        ) by {
        if 0 <= i < config.len() && i != c {
            assert(jobs1[i] == jobs2[i]);
        }
    }
    assert forall|i: int|
        is_candidate(jobs1, config, now, Some(c), i) implies candidate_key(jobs1, config, i)
            == candidate_key(jobs2, config, i) by {
        assert(jobs1[i] == jobs2[i]);
    }
    if exists|i: int| is_candidate(jobs1, config, now, Some(c), i) {
        let k = choose|i: int| is_candidate(jobs1, config, now, Some(c), i);
        lemma_best_candidate_exists(jobs1, config, now, Some(c), k);
        lemma_best_candidate_exists(jobs2, config, now, Some(c), k);
        let b1 = choose|i: int| is_best_candidate(jobs1, config, now, Some(c), i);
        let b2 = choose|i: int| is_best_candidate(jobs2, config, now, Some(c), i);
        assert(is_best_candidate(jobs1, config, now, Some(c), b2)) by {
            assert forall|j: int| #[trigger]
                is_candidate(jobs1, config, now, Some(c), j) implies !key_less(
                candidate_key(jobs1, config, j),
                candidate_key(jobs1, config, b2),
            ) by {
                assert(is_candidate(jobs2, config, now, Some(c), j));
            }
        }
        lemma_best_candidate_unique(jobs1, config, now, Some(c), b1, b2);
    }
}

/// Law: the tip shown first is the one with the shortest interval (earliest in the
/// configuration among equal intervals), since every tip is eligible when loaded.
pub proof fn law_first_tip_shortest_interval(config: &JobConfig, now: int)
    requires
        config.len() > 0,
        0 <= now <= DURATION_MAX_NANOS,
    ensures
        ({
            let (jobs, update) = spec_eval_update(Seq::empty(), config, None, now);
            update matches JobUpdate::Replace(Some(job)) && {
                let c = job.current_index as int;
                &&& 0 <= c < config.len()
                &&& forall|j: int|
                    0 <= j < config.len() ==> config.tip(c).interval < config.tip(j).interval || (
                    config.tip(c).interval == config.tip(j).interval && c <= j)
            }
        }),
{
    let synced = spec_synchronized(Seq::empty(), config.len());
    assert(is_candidate(synced, config, now, None, 0));
    lemma_best_candidate_exists(synced, config, now, None, 0);
    let b = choose|i: int| is_best_candidate(synced, config, now, None, i);
    assert forall|j: int| 0 <= j < config.len() implies config.tip(b).interval < config.tip(
        j,
    ).interval || (config.tip(b).interval == config.tip(j).interval && b <= j) by {
        assert(is_candidate(synced, config, now, None, j));
    }
    assert(config.0.tips.len() == config.len());
    assert(spec_select_next(synced, config, now, None) == Some(b as usize));
}

/// Law: when a presentation has ended, the next tip is the eligible other tip that
/// became eligible earliest (then shorter interval, then earlier in the
/// configuration); when no other tip is eligible, the same tip starts again at once.
pub proof fn law_next_after_completion(
    jobs: Seq<JobRuntimeState>,
    config: &JobConfig,
    active: ActiveJob,
    now: int,
)
    requires
        config.len() > 0,
        consistent(jobs, config, Some(active)),
        now >= active.ends_at,
        0 <= now <= DURATION_MAX_NANOS,
    ensures
        ({
            let (after, update) = spec_eval_update(jobs, config, Some(active), now);
            let c = active.current_index as int;
            update matches JobUpdate::Replace(Some(job)) && {
                let n = job.current_index as int;
                &&& after[c].finished_at == Some(now as u128)
                &&& job.started_at == now
                &&& if exists|i: int| is_candidate(after, config, now, Some(active.current_index), i) {
                    &&& n != c
                    &&& is_best_candidate(after, config, now, Some(active.current_index), n)
                } else {
                    n == c
                }
            }
        }),
{
    let synced = spec_synchronized(jobs, config.len());
    let after = spec_finish(synced, active.current_index as int, now);
    if exists|i: int| is_candidate(after, config, now, Some(active.current_index), i) {
        let k = choose|i: int| is_candidate(after, config, now, Some(active.current_index), i);
        lemma_best_candidate_exists(after, config, now, Some(active.current_index), k);
        let b = choose|i: int| is_best_candidate(after, config, now, Some(active.current_index), i);
        assert(config.0.tips.len() == config.len());
        assert(spec_select_next(after, config, now, Some(active.current_index)) == Some(b as usize));
    }
}

/// Law: the tip on screen does not change before its show time has passed.
pub proof fn law_no_change_before_show_time_ends(
    jobs: Seq<JobRuntimeState>,
    config: &JobConfig,
    active: ActiveJob,
    now: int,
)
    requires
        config.len() > 0,
        jobs.len() == config.len(),
        now < active.ends_at,
    ensures
        spec_eval_update(jobs, config, Some(active), now) == (jobs, JobUpdate::Unchanged),
{
    assert(spec_synchronized(jobs, config.len()) =~= jobs);
}

/// Law: with a single configured tip, every completed presentation immediately
/// starts the same tip again for its show time.
pub proof fn law_single_tip_repeats(
    jobs: Seq<JobRuntimeState>,
    config: &JobConfig,
    active: ActiveJob,
    now: int,
)
    requires
        config.len() == 1,
        consistent(jobs, config, Some(active)),
        now >= active.ends_at,
        0 <= now <= DURATION_MAX_NANOS,
    ensures
        spec_eval_update(jobs, config, Some(active), now).1 == JobUpdate::Replace(
            Some(
                ActiveJob {
                    current_index: 0,
                    preview_next_index: 0,
                    started_at: now as u128,
                    ends_at: sat_add(now, secs_to_nanos(config.tip(0).spec_show_time())) as u128,
                },
            ),
        ),
{
    let synced = spec_synchronized(jobs, config.len());
    let after = spec_finish(synced, 0, now);
    let ends = sat_add(now, secs_to_nanos(config.tip(0).spec_show_time()));
    assert(!exists|i: int| is_candidate(after, config, now, Some(0usize), i));
    assert(!exists|i: int| is_candidate(after, config, ends, Some(0usize), i));
}

/// Law: the tip previewed as next when a presentation is created is the tip that
/// follows when the scheduler runs at the moment that presentation ends, the job
/// states being those the presentation was created from.
pub proof fn law_preview_is_next(
    jobs: Seq<JobRuntimeState>,
    config: &JobConfig,
    index: usize,
    started_at: int,
)
    requires
        index < config.len(),
        jobs.len() == config.len(),
        consistent(jobs, config, Some(spec_create_job(jobs, config, index, started_at))),
        0 <= started_at <= DURATION_MAX_NANOS,
    ensures
        ({
            let active = spec_create_job(jobs, config, index, started_at);
            spec_eval_update(jobs, config, Some(active), active.ends_at as int).1 matches JobUpdate::Replace(
                Some(job),
            ) && job.current_index == active.preview_next_index
        }),
{
    let active = spec_create_job(jobs, config, index, started_at);
    let ends = sat_add(started_at, secs_to_nanos(config.tip(index as int).spec_show_time()));
    assert(0 <= ends <= DURATION_MAX_NANOS);
    assert(active.ends_at as int == ends);
    let synced = spec_synchronized(jobs, config.len());
    assert(synced =~= jobs);
    let after = spec_finish(synced, index as int, ends);
    lemma_select_ignores_completed(after, jobs, config, ends, index);
}


/// Law: every presentation that a scheduling step starts begins at that moment and
/// ends exactly the show time of the tip it presents later (capped at the largest
/// `Duration`), for any number of configured tips and whatever the show times of
/// the other tips are.
pub proof fn law_presentation_lasts_own_show_time(
    jobs: Seq<JobRuntimeState>,
    config: &JobConfig,
    active: Option<ActiveJob>,
    now: int,
)
    requires
        0 <= now <= DURATION_MAX_NANOS,
    ensures
        spec_eval_update(jobs, config, active, now).1 matches JobUpdate::Replace(Some(job)) ==> {
            &&& job.started_at == now
            &&& job.ends_at == sat_add(
                now,
                config.tip(job.current_index as int).spec_show_time() * NANOS_PER_SEC,
            )
        },
{
    if let JobUpdate::Replace(Some(job)) = spec_eval_update(jobs, config, active, now).1 {
        let show = config.tip(job.current_index as int).spec_show_time();
        assert(0 <= show * NANOS_PER_SEC <= DURATION_MAX_NANOS) by (nonlinear_arith)
            requires
                0 <= show <= u64::MAX,
        ;
        assert(0 <= sat_add(now, show * NANOS_PER_SEC) <= DURATION_MAX_NANOS);
    }
}

/// Law: tips that have never been shown come before tips that have. While some
/// other tip that never completed is eligible, the tip chosen next is one that
/// never completed either (intervals being positive, as validation ensures), so
/// no recurring tip can starve a tip that has not been shown yet.
pub proof fn law_fresh_tips_first(
    jobs: Seq<JobRuntimeState>,
    config: &JobConfig,
    now: int,
    completed: Option<usize>,
    fresh: int,
)
    requires
        jobs.len() == config.len(),
        forall|j: int| 0 <= j < config.len() ==> (#[trigger] config.tip(j)).interval > 0,
        is_candidate(jobs, config, now, completed, fresh),
        jobs[fresh].finished_at is None,
    ensures
        spec_select_next(jobs, config, now, completed) matches Some(b) && jobs[b as int].finished_at
            is None,
{
    lemma_best_candidate_exists(jobs, config, now, completed, fresh);
    let b = choose|i: int| is_best_candidate(jobs, config, now, completed, i);
    assert(is_candidate(jobs, config, now, completed, fresh));
    assert(!key_less(candidate_key(jobs, config, fresh), candidate_key(jobs, config, b)));
    assert(config.tip(b).interval > 0);
    assert(config.0.tips.len() == config.len());
    assert(spec_select_next(jobs, config, now, completed) == Some(b as usize));
}

} // verus!
