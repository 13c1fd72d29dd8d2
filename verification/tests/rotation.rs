use nyra::job::ocr::{OCRJob, OCRJobBuilder, OCRJobStatus};
use nyra::job::{JobConfig, Tip, Tips};
use nyra::overlay::OverlayMode;
use nyra::platform::windows::{
    event_for_hotkey, OverlayWindowSubclassState, WindowsOverlayController,
    HOTKEY_ID_CLEAR_SELECTION, HOTKEY_ID_TOGGLE_MODE,
};
use nyra::platform::{OverlayController, OverlayPlatformEvent};
use nyra::sensory::job::{process_jobs_at, FocusState, JobSensoryState};
use nyra::sentry::{AlarmMode, CaptureSelector, FocusPoint, Nyra, NyraJobs, SentryTask};
use std::time::{Duration, Instant};

const NANOS: u128 = 1_000_000_000;

fn config(show_times: &[u64]) -> JobConfig {
    JobConfig(Tips {
        tips: show_times
            .iter()
            .map(|&show_time| Tip {
                tip: "tip".to_string(),
                interval: 1,
                show_time: Some(show_time),
                color: None,
                reaction: None,
            })
            .collect(),
    })
}

#[test]
fn rotates_through_tips_in_order() {
    let jobs = config(&[2, 3]);
    let mut state = JobSensoryState::default();
    assert!(process_jobs_at(&jobs, &mut state, 0));
    assert_eq!(state.focus_state, Some(FocusState { current_index: 0, started_at: 0 }));
    assert!(!process_jobs_at(&jobs, &mut state, NANOS));
    assert!(process_jobs_at(&jobs, &mut state, 2 * NANOS));
    assert_eq!(state.focus_state, Some(FocusState { current_index: 1, started_at: 2 * NANOS }));
    assert!(!process_jobs_at(&jobs, &mut state, 4 * NANOS));
    assert!(process_jobs_at(&jobs, &mut state, 5 * NANOS));
    assert_eq!(state.focus_state, Some(FocusState { current_index: 0, started_at: 5 * NANOS }));
    assert_eq!(
        FocusState { current_index: 0, started_at: 5 * NANOS }.elapsed_at(NANOS),
        0
    );

    let mut empty = JobSensoryState::default();
    assert!(!process_jobs_at(&config(&[]), &mut empty, 0));
    assert_eq!(empty.focus_state, None);

    let mut stale = JobSensoryState::default();
    stale.restart_at(5, 0);
    assert!(process_jobs_at(&jobs, &mut stale, 1));
    assert_eq!(stale.focus_state, Some(FocusState { current_index: 0, started_at: 1 }));
    stale.restart(9);
    assert_eq!(stale.focus_state, Some(FocusState { current_index: 0, started_at: 9 }));
}

#[test]
fn maps_overlay_hotkeys() {
    assert_eq!(event_for_hotkey(HOTKEY_ID_TOGGLE_MODE), Some(OverlayPlatformEvent::ToggleMode));
    assert_eq!(
        event_for_hotkey(HOTKEY_ID_CLEAR_SELECTION),
        Some(OverlayPlatformEvent::ClearSelection)
    );
    assert_eq!(event_for_hotkey(99), None);

    let mut state = OverlayWindowSubclassState::default();
    assert!(!state.on_hotkey(5, HOTKEY_ID_TOGGLE_MODE));
    state.hwnd = Some(5);
    assert!(state.on_hotkey(5, HOTKEY_ID_TOGGLE_MODE));
    assert!(state.on_hotkey(5, 99));
    assert!(state.on_hotkey(5, HOTKEY_ID_CLEAR_SELECTION));
    assert_eq!(
        state.take_events(),
        vec![OverlayPlatformEvent::ToggleMode, OverlayPlatformEvent::ClearSelection]
    );
    assert_eq!(state.take_events(), Vec::new());

    let mut controller = WindowsOverlayController::new("NYRA Overlay");
    assert_eq!(controller.title, "NYRA Overlay");
    assert!(controller.needs_mode_change(OverlayMode::Edit));
    controller.mode_applied(OverlayMode::Edit);
    assert!(!controller.needs_mode_change(OverlayMode::Edit));
    assert!(controller.needs_mode_change(OverlayMode::Sentinel));
    let actions = controller.bind_window();
    assert!(actions.install_subclass && actions.register_hotkeys);

    let mut plain = OverlayController::new("NYRA Overlay");
    plain.apply_mode(OverlayMode::Sentinel);
    assert!(plain.poll_events().is_empty());
}

#[test]
fn builds_ocr_jobs() {
    let start = Instant::now();
    let job: OCRJob = OCRJobBuilder::new("scan".to_string(), ((1, 2), (3, 4)))
        .with_frequency(Duration::from_millis(250))
        .with_start_at(start)
        .into();
    assert_eq!(job.id, "scan");
    assert_eq!(job.rect, ((1, 2), (3, 4)));
    assert_eq!(job.start_at, start);
    assert_eq!(job.frequency, Duration::from_millis(250));
    assert!(matches!(job.state, OCRJobStatus::Pending));

    let job: OCRJob = OCRJobBuilder::new("plain".to_string(), ((0, 0), (1, 1))).into();
    assert_eq!(job.frequency, Duration::from_secs(3));
    assert!(job.start_at >= start);
}

fn sentry(x: i32, text: &str) -> SentryTask {
    SentryTask::new(
        CaptureSelector::Rect { x1: x, y1: x + 1, x2: x + 2, y2: x + 3 },
        None,
        FocusPoint::ContainsText(text.to_string()),
        AlarmMode::PrintLog,
    )
}

#[test]
fn appends_sentries_loaded_from_json() {
    let mut nyra = Nyra::new();
    assert_eq!(
        nyra.check_deployable(),
        Err("No sentry tasks loaded.".to_string())
    );
    nyra.append_sentries(NyraJobs { sentries: vec![sentry(1, "first")] });
    nyra.append_sentries(NyraJobs { sentries: vec![sentry(5, "second")] });
    assert_eq!(nyra.sentries(), &[sentry(1, "first"), sentry(5, "second")]);
    assert_eq!(nyra.sentries()[0].frequency_ms, Some(1000));
    assert_eq!(nyra.check_deployable(), Ok(()));
}

#[test]
fn polls_shortcuts_in_arrival_order_once() {
    let mut state = OverlayWindowSubclassState::default();
    state.hwnd = Some(7);
    assert!(state.on_hotkey(7, HOTKEY_ID_CLEAR_SELECTION));
    assert!(!state.on_hotkey(8, HOTKEY_ID_TOGGLE_MODE));
    assert!(state.on_hotkey(7, HOTKEY_ID_TOGGLE_MODE));
    assert!(state.on_hotkey(7, HOTKEY_ID_CLEAR_SELECTION));
    assert_eq!(
        state.take_events(),
        vec![
            OverlayPlatformEvent::ClearSelection,
            OverlayPlatformEvent::ToggleMode,
            OverlayPlatformEvent::ClearSelection
        ]
    );
    assert!(state.take_events().is_empty());
}

#[test]
fn controller_polls_the_window_queue() {
    let mut controller = WindowsOverlayController::new("NYRA Overlay");
    let mut state = OverlayWindowSubclassState::default();
    state.hwnd = Some(3);
    state.on_hotkey(3, HOTKEY_ID_TOGGLE_MODE);
    state.on_hotkey(3, HOTKEY_ID_CLEAR_SELECTION);
    assert_eq!(
        controller.poll_events(&mut state),
        vec![OverlayPlatformEvent::ToggleMode, OverlayPlatformEvent::ClearSelection]
    );
    assert!(controller.poll_events(&mut state).is_empty());
}
