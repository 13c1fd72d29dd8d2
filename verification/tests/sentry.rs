use nyra::sentry::{
    default_frequency_ms, is_default_frequency_ms, matches_focus, AlarmMode, CaptureSelector,
    FocusPoint, SentryRunOutput, SentryTask,
};
use std::time::Duration;

fn create_test_sentry() -> SentryTask {
    SentryTask {
        patrol: CaptureSelector::Rect {
            x1: 10,
            y1: 20,
            x2: 30,
            y2: 40,
        },
        frequency_ms: Some(500),
        focus_on: FocusPoint::ContainsText("alert".to_string()),
        alarm_mode: AlarmMode::PrintLog,
    }
}

fn interval(task: &SentryTask) -> Option<Duration> {
    task.interval_duration().map(Duration::from_millis)
}

#[test]
fn run_matches_focus_text() {
    let task = create_test_sentry();

    let actual = task.evaluate_text("system alert triggered".to_string());

    assert_eq!(
        actual,
        SentryRunOutput {
            recognized_text: "system alert triggered".to_string(),
            matched: true,
        }
    );
}

#[test]
fn run_reports_unmatched_text() {
    let task = create_test_sentry();

    let actual = task.evaluate_text("system healthy".to_string());

    assert_eq!(
        actual,
        SentryRunOutput {
            recognized_text: "system healthy".to_string(),
            matched: false,
        }
    );
}

#[test]
fn converts_frequency_to_interval_duration() {
    let task = create_test_sentry();

    let duration = interval(&task);

    assert_eq!(duration, Some(Duration::from_millis(500)));
}

#[test]
fn rejects_zero_frequency() {
    let task = SentryTask::new(
        CaptureSelector::Rect {
            x1: 10,
            y1: 20,
            x2: 30,
            y2: 40,
        },
        Some(0),
        FocusPoint::ContainsText("alert".to_string()),
        AlarmMode::PrintLog,
    );

    let duration = interval(&task);

    assert_eq!(duration, None);
}

#[test]
fn defaults_missing_frequency_to_one_second_interval() {
    let task = SentryTask::new(
        CaptureSelector::Rect {
            x1: 10,
            y1: 20,
            x2: 30,
            y2: 40,
        },
        None,
        FocusPoint::ContainsText("alert".to_string()),
        AlarmMode::PrintLog,
    );

    let duration = interval(&task);

    assert_eq!(duration, Some(Duration::from_millis(1000)));
}

#[test]
fn treats_negative_frequency_as_single_run() {
    let task = SentryTask::new(
        CaptureSelector::Rect {
            x1: 10,
            y1: 20,
            x2: 30,
            y2: 40,
        },
        Some(-1),
        FocusPoint::ContainsText("alert".to_string()),
        AlarmMode::PrintLog,
    );

    let duration = interval(&task);

    assert_eq!(duration, None);
}

#[test]
fn default_frequency_is_recognized() {
    assert_eq!(default_frequency_ms(), Some(1000));
    assert!(is_default_frequency_ms(&Some(1000)));
    assert!(!is_default_frequency_ms(&Some(500)));
    assert!(!is_default_frequency_ms(&None));
}

#[test]
fn focus_text_is_found_anywhere() {
    let focus = FocusPoint::ContainsText("ert".to_string());
    assert!(matches_focus("alert", &focus));
    assert!(!matches_focus("er", &focus));
    assert!(matches_focus("x", &FocusPoint::ContainsText(String::new())));
    assert!(matches_focus("警报 alert", &FocusPoint::ContainsText("报 a".to_string())));
}

#[test]
fn run_output_describes_itself() {
    let output = SentryRunOutput {
        matched: true,
        recognized_text: "hi".to_string(),
    };
    assert_eq!(
        output.describe(),
        "SentryRunOutput { matched: true, recognized_text: 'hi' }"
    );
}
