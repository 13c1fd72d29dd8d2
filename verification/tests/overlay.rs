use nyra::job::entity::{ScreenPoint, ScreenRect};
use nyra::overlay::board::{format_region, is_large_enough, TaskBoard, TaskStatus};
use nyra::overlay::selection::{selection_rect, SelectionPhase, SelectionPhaseStart};
use nyra::overlay::{mode_label, OverlayMode, OverlayState};
use nyra::perception::service::{PerceptionError, PerceptionResult};
use nyra::platform::OverlayPlatformEvent;

fn pt(x: i32, y: i32) -> ScreenPoint {
    ScreenPoint { x, y }
}

#[test]
fn normalizes_rectangles() {
    let r = ScreenRect::from(30, 40, 10, 20);
    assert_eq!((r.lt_x(), r.lt_y(), r.rb_x(), r.rb_y()), (10, 20, 30, 40));
    assert_eq!(r.width(), 20);
    assert_eq!(r.height(), 20);
    assert_eq!(r.center(), pt(20, 30));
    assert_eq!(ScreenRect::from_points(pt(5, -3), pt(-5, 3)), ScreenRect::from(-5, -3, 5, 3));
    assert_eq!(ScreenRect::from(-5, -3, 4, 2).center(), pt(0, 0));
    assert_eq!(ScreenRect::from(-7, -7, -2, -2).center(), pt(-4, -4));
}

#[test]
fn toggles_overlay_mode() {
    assert_eq!(OverlayMode::Edit.toggle(), OverlayMode::Sentinel);
    assert_eq!(OverlayMode::Sentinel.toggle(), OverlayMode::Edit);
    assert_eq!(OverlayMode::Edit.toggle().toggle(), OverlayMode::Edit);
    let state = OverlayState::default();
    assert_eq!(state.mode, OverlayMode::Edit);
    assert_eq!(state.selection, SelectionPhase::Idle);
    assert_ne!(mode_label(OverlayMode::Edit), mode_label(OverlayMode::Sentinel));
}

#[test]
fn follows_a_drag() {
    let phase = SelectionPhase::start_at(pt(10, 10));
    assert_eq!(selection_rect(phase), Some(ScreenRect::from(10, 10, 10, 10)));
    let phase = phase.update_by(pt(40, 5));
    let phase = phase.update_by(pt(2, 30));
    assert_eq!(selection_rect(phase), Some(ScreenRect::from(2, 10, 10, 30)));
    assert_eq!(selection_rect(SelectionPhase::default()), None);
    assert_eq!(SelectionPhase::Idle.update_by(pt(1, 2)), SelectionPhase::Start(SelectionPhaseStart(pt(1, 2))));
}

#[test]
fn formats_and_sizes_regions() {
    assert_eq!(format_region(ScreenRect::from(-3, 4, 17, 24)), "区域: (-3, 4) 20 x 20");
    assert!(is_large_enough(ScreenRect::from(0, 0, 8, 8)));
    assert!(!is_large_enough(ScreenRect::from(0, 0, 7, 100)));
}

fn select(board: &mut TaskBoard, from: ScreenPoint, to: ScreenPoint) {
    board.drag_started(from);
    board.dragged(to);
    board.finish_selection();
}

#[test]
fn creates_runs_and_files_results() {
    let mut board = TaskBoard::new();
    select(&mut board, pt(0, 0), pt(3, 3));
    assert_eq!(board.state.selection, SelectionPhase::Idle);
    assert!(board.pending_task_upsert.is_none());

    select(&mut board, pt(0, 0), pt(100, 50));
    let pending = board.pending_task_upsert.clone().unwrap();
    assert_eq!(pending.task_id, None);
    assert_eq!(pending.title, "Task 1");
    assert_eq!(pending.region, ScreenRect::from(0, 0, 100, 50));
    assert_eq!(pending.frequency, 3_000_000_000);

    board.upsert_task(None, "  ".to_string(), pending.region, pending.frequency, true);
    assert_eq!(board.tasks.len(), 1);
    assert_eq!(board.tasks[0].id, 1);
    assert_eq!(board.tasks[0].title, "Task 1");
    assert_eq!(board.selected_task_id, Some(1));
    assert_eq!(board.next_task_id, 2);
    assert!(board.pending_task_upsert.is_none());

    assert_eq!(board.due_task_ids(0), vec![1]);
    let (request_id, region) = board.spawn_task_run(1, 0).unwrap();
    assert_eq!(request_id, 1);
    assert_eq!(region, ScreenRect::from(0, 0, 100, 50));
    assert_eq!(board.tasks[0].status_line(), "running");
    assert_eq!(board.due_task_ids(10_000_000_000), Vec::<u64>::new());

    board.apply_result(
        1,
        request_id,
        5,
        Ok(PerceptionResult {
            request_id,
            region,
            summary: "OCR: hi".to_string(),
            text: "hi".to_string(),
            latency_ms: 3,
        }),
    );
    assert_eq!(board.tasks[0].status_line(), "OCR: hi");
    assert!(matches!(board.tasks[0].status, TaskStatus::Success { .. }));
    assert_eq!(board.due_task_ids(1_000_000_000), Vec::<u64>::new());
    assert_eq!(board.due_task_ids(3_000_000_000), vec![1]);

    let (second, _) = board.spawn_task_run(1, 3_000_000_000).unwrap();
    assert_eq!(second, 2);
    board.apply_result(
        1,
        second,
        3_100_000_000,
        Err(PerceptionError { request_id: second, message: "capture failed".to_string() }),
    );
    assert_eq!(board.tasks[0].status_line(), "failed: capture failed");

    board.set_task_enabled(1, false);
    assert_eq!(board.due_task_ids(100_000_000_000), Vec::<u64>::new());
    assert!(board.spawn_task_run(9, 0).is_none());
}

#[test]
fn edits_and_deletes_tasks() {
    let mut board = TaskBoard::new();
    board.upsert_task(None, " first ".to_string(), ScreenRect::from(0, 0, 10, 10), 1, true);
    board.upsert_task(None, "second".to_string(), ScreenRect::from(0, 0, 20, 20), 2, true);
    assert_eq!(board.tasks[0].title, "first");
    assert_eq!(board.tasks[1].id, 2);

    board.edit_region(1);
    select(&mut board, pt(5, 5), pt(50, 60));
    let pending = board.pending_task_upsert.clone().unwrap();
    assert_eq!(pending.task_id, Some(1));
    assert_eq!(pending.title, "first");
    assert_eq!(pending.frequency, 1);
    board.upsert_task(pending.task_id, "".to_string(), pending.region, 7, false);
    assert_eq!(board.tasks[0].title, "Task 1");
    assert_eq!(board.tasks[0].region, ScreenRect::from(5, 5, 50, 60));
    assert_eq!(board.tasks[0].frequency, 7);
    assert!(!board.tasks[0].enabled);

    board.select_task(2);
    board.delete_task(2);
    assert_eq!(board.tasks.len(), 1);
    assert_eq!(board.selected_task_id, None);

    board.handle_platform_event(OverlayPlatformEvent::ToggleMode);
    assert_eq!(board.state.mode, OverlayMode::Sentinel);
    board.drag_started(pt(1, 1));
    assert_eq!(board.state.selection, SelectionPhase::Idle);
    board.handle_platform_event(OverlayPlatformEvent::ClearSelection);
    assert_eq!(board.state.mode, OverlayMode::Sentinel);
}
