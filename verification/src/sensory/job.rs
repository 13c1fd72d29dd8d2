//! Plain rotation through the tips: each tip is shown for its show time, then the
//! next one in configuration order.

use crate::job::JobConfig;
use crate::sensory::job_manager::{DURATION_MAX_NANOS, secs_to_nanos};
use vstd::prelude::*;

verus! {

/// The tip in focus and when its presentation started (nanoseconds since start).
#[derive(Clone, Copy, Debug, PartialEq, Eq, Structural)]
pub struct FocusState {
    pub current_index: usize,
    pub started_at: u128,
}

impl FocusState {
    /// Time since the focus started, zero before it.
    pub open spec fn spec_elapsed_at(self, now: int) -> int {
        if now >= self.started_at { now - self.started_at } else { 0 }
    }

    pub fn elapsed_at(&self, now: u128) -> (r: u128)
        ensures
            r == self.spec_elapsed_at(now as int),
    {
        if now >= self.started_at {
            now - self.started_at
        } else {
            0
        }
    }
}

/// The rotation state: which tip has the focus, if any.
pub struct JobSensoryState {
    pub focus_state: Option<FocusState>,
}

impl JobSensoryState {
    pub fn default() -> (s: Self)
        ensures
            s.focus_state is None,
    {
        JobSensoryState { focus_state: None }
    }

    /// Puts tip `index` in focus from `now` on.
    pub fn restart_at(&mut self, index: usize, now: u128)
        ensures
            final(self).focus_state == Some(FocusState { current_index: index, started_at: now }),
    {
        self.focus_state = Some(FocusState { current_index: index, started_at: now });
    }

    /// Puts the first tip in focus from `now` on.
    pub fn restart(&mut self, now: u128)
        ensures
            final(self).focus_state == Some(FocusState { current_index: 0, started_at: now }),
    {
        self.restart_at(0, now);
    }
}

/// The focus after one rotation step at `now`, or `None` when it stays as it is.
pub open spec fn spec_rotate(
    config: &JobConfig,
    focus: Option<FocusState>,
    now: int,
) -> Option<FocusState> {
    match focus {
        None => if config.len() == 0 {
            None
        } else {
            Some(FocusState { current_index: 0, started_at: now as u128 })
        },
        Some(f) => if f.current_index >= config.len() {
            Some(FocusState { current_index: 0, started_at: now as u128 })
        } else if f.spec_elapsed_at(now) >= secs_to_nanos(
            config.tip(f.current_index as int).spec_show_time(),
        ) {
            Some(
                FocusState {
                    current_index: ((f.current_index + 1) % (config.len() as int)) as usize,
                    started_at: now as u128,
                },
            )
        } else {
            None
        },
    }
}

/// Advances the rotation at `now`; returns whether the focus changed.
pub fn process_jobs_at(jobs: &JobConfig, state: &mut JobSensoryState, now: u128) -> (changed: bool)
    ensures
        changed == (spec_rotate(jobs, old(state).focus_state, now as int) is Some),
        final(state).focus_state == match spec_rotate(jobs, old(state).focus_state, now as int) {
            Some(f) => Some(f),
            None => old(state).focus_state,
        },
{
    match state.focus_state {
        None => {
            if jobs.is_empty() {
                false
            } else {
                state.restart(now);
                true
            }
        },
        Some(focus_state) => {
            if focus_state.current_index >= jobs.0.tips.len() {
                state.restart(now);
                true
            } else {
                let show_time = jobs.0.tips[focus_state.current_index].show_time();
                let show_nanos: u128 = (show_time as u128) * 1_000_000_000;
                if focus_state.elapsed_at(now) >= show_nanos {
                    let next_index = (focus_state.current_index + 1) % jobs.0.tips.len();
                    state.restart_at(next_index, now);
                    true
                } else {
                    false
                }
            }
        },
    }
}

/// Law: the rotation visits the tips in configuration order and wraps around; a
/// focused tip keeps the focus until its show time has passed.
pub proof fn law_rotation_order(config: &JobConfig, f: FocusState, now: int)
    requires
        f.current_index < config.len(),
        0 <= now <= DURATION_MAX_NANOS,
    ensures
        f.spec_elapsed_at(now) < secs_to_nanos(config.tip(f.current_index as int).spec_show_time())
            ==> spec_rotate(config, Some(f), now) is None,
        f.spec_elapsed_at(now) >= secs_to_nanos(config.tip(f.current_index as int).spec_show_time())
            ==> spec_rotate(config, Some(f), now) == Some(
            FocusState {
                current_index: if f.current_index + 1 == config.len() {
                    0
                } else {
                    (f.current_index + 1) as usize
                },
                started_at: now as u128,
            },
        ),
{
    let n = config.len() as int;
    let k = f.current_index + 1;
    if k == n {
        vstd::arithmetic::div_mod::lemma_mod_self_0(n);
    } else {
        vstd::arithmetic::div_mod::lemma_small_mod(k as nat, n as nat);
    }
}

} // verus!
