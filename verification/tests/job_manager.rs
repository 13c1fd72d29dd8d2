use nyra::job::{JobConfig, Tip, Tips};
use nyra::sensory::job_manager::{process_jobs, ActiveJobState, JobManager, JobUpdate};

const NANOS: u128 = 1_000_000_000;

struct TestScheduler {
    config: JobConfig,
    manager: JobManager,
    state: ActiveJobState,
}

impl TestScheduler {
    fn new(job_times: &[(u64, u64)]) -> Self {
        let tips = job_times
            .iter()
            .enumerate()
            .map(|(index, &(interval, show_time))| Tip {
                tip: format!("job {index}"),
                interval,
                show_time: Some(show_time),
                color: None,
                reaction: None,
            })
            .collect();
        Self {
            config: JobConfig(Tips { tips }),
            manager: JobManager::default(),
            state: ActiveJobState::default(),
        }
    }

    fn update_at(&mut self, seconds: u64) -> bool {
        match self
            .manager
            .eval_update_at(&self.config, &self.state, seconds as u128 * NANOS)
        {
            JobUpdate::Unchanged => false,
            JobUpdate::Replace(next) => {
                self.state.active_job = next;
                true
            }
        }
    }

    fn active_indexes(&self) -> (usize, usize) {
        let active_job = self.state.active_job.as_ref().unwrap();
        (active_job.current_index, active_job.preview_next_index)
    }
}

fn assert_schedule(job_times: &[(u64, u64)], expected: &[(u64, usize, usize)]) {
    let mut scheduler = TestScheduler::new(job_times);
    for &(time, current_index, preview_next_index) in expected {
        assert!(scheduler.update_at(time));
        assert_eq!(
            scheduler.active_indexes(),
            (current_index, preview_next_index),
            "unexpected schedule at {time}s"
        );
    }
}

#[test]
fn schedules_by_earliest_eligibility() {
    assert_schedule(
        &[(1, 3), (10, 3), (15, 3)],
        &[
            (0, 0, 1),
            (3, 1, 2),
            (6, 2, 0),
            (9, 0, 0),
            (12, 0, 0),
            (15, 0, 1),
            (18, 1, 0),
        ],
    );
}

#[test]
fn does_not_advance_before_show_time_finishes() {
    let mut scheduler = TestScheduler::new(&[(1, 3), (2, 3)]);
    assert!(scheduler.update_at(0));
    assert!(!scheduler.update_at(2));
    assert_eq!(scheduler.active_indexes(), (0, 1));
}

#[test]
fn configuration_order_breaks_equal_interval_ties() {
    assert_schedule(&[(5, 1), (5, 1), (5, 1)], &[(0, 0, 1), (1, 1, 2)]);
}

#[test]
fn marks_state_changed_only_when_committing_a_scheduling_update() {
    // Exercise both repeating the current tip and switching to another tip.
    for job_times in [vec![(1, 3)], vec![(1, 3), (2, 3)]] {
        let mut scheduler = TestScheduler::new(&job_times);
        let mut observed = Vec::new();
        let mut elapsed_total: u128 = 0;
        for elapsed in [0u128, 1, 2, 1] {
            elapsed_total += elapsed * NANOS;
            observed.push(process_jobs(
                elapsed_total,
                &scheduler.config,
                &mut scheduler.manager,
                &mut scheduler.state,
            ));
        }

        scheduler.config.0.tips.clear();
        for _ in 0..2 {
            observed.push(process_jobs(
                elapsed_total,
                &scheduler.config,
                &mut scheduler.manager,
                &mut scheduler.state,
            ));
        }

        assert_eq!(observed, [true, false, true, false, true, false]);
        assert!(scheduler.state.active_job.is_none());
    }
}

#[test]
fn first_tip_is_the_shortest_interval() {
    let mut scheduler = TestScheduler::new(&[(9, 2), (4, 2), (4, 2)]);
    assert!(scheduler.update_at(0));
    assert_eq!(scheduler.active_indexes(), (1, 2));
}

#[test]
fn single_tip_repeats_for_its_show_time() {
    let mut scheduler = TestScheduler::new(&[(100, 2)]);
    assert!(scheduler.update_at(0));
    assert!(scheduler.update_at(2));
    assert_eq!(scheduler.active_indexes(), (0, 0));
    let job = scheduler.state.active_job.unwrap();
    assert_eq!(job.started_at, 2 * NANOS);
    assert_eq!(job.ends_at, 4 * NANOS);
}

#[test]
fn preview_predicts_the_next_tip() {
    let mut scheduler = TestScheduler::new(&[(2, 3), (7, 1), (1, 2)]);
    assert!(scheduler.update_at(0));
    for _ in 0..10 {
        let (_, preview) = scheduler.active_indexes();
        let ends_at = scheduler.state.active_job.unwrap().ends_at;
        assert!(scheduler.update_at((ends_at / NANOS) as u64));
        assert_eq!(scheduler.active_indexes().0, preview);
    }
}

#[test]
fn empty_configuration_clears_the_active_tip() {
    let mut scheduler = TestScheduler::new(&[]);
    assert!(!scheduler.update_at(0));
    assert!(scheduler.state.active_job.is_none());
}

#[test]
fn default_show_time_is_five_seconds() {
    let tip = Tip {
        tip: "t".to_string(),
        interval: 1,
        show_time: None,
        color: None,
        reaction: None,
    };
    assert_eq!(tip.show_time(), 5);
    let mut scheduler = TestScheduler {
        config: JobConfig(Tips { tips: vec![tip] }),
        manager: JobManager::default(),
        state: ActiveJobState::default(),
    };
    assert!(scheduler.update_at(10));
    assert_eq!(scheduler.state.active_job.unwrap().ends_at, 15 * NANOS);
    assert_eq!(scheduler.state.current_index(), Some(0));
}
