use nyra::capture::{same_monitor, MonitorBounds};
use nyra::job::entity::ScreenRect;
use nyra::perception::service::{
    complete_future, initial_worker_count, recognition_summary, Checkout, PerceptionError,
    PerceptionFuture, PerceptionResult, PerceptionWorker, PoolState, WorkerStatus,
    MAX_WORKER_COUNT,
};
use nyra::perception::{
    check_condition, check_condition_extension, check_monitor_size, check_template_size,
    check_watch_monitor, condition_template, crop_rgba, region_between, template_name,
    template_png, similarity_counts, template_file_name, validate_region, Region,
};

fn region(x: u32, y: u32, width: u32, height: u32) -> Region {
    Region { x, y, width, height }
}

#[test]
fn validates_regions_against_the_monitor() {
    assert_eq!(validate_region(region(0, 0, 10, 10), 10, 10), Ok(()));
    assert_eq!(
        validate_region(region(0, 0, 0, 10), 10, 10),
        Err("Perception region width and height must be greater than 0".to_string())
    );
    assert_eq!(
        validate_region(region(u32::MAX, 0, 1, 1), 10, 10),
        Err("Perception region horizontal bounds overflow".to_string())
    );
    assert_eq!(
        validate_region(region(0, u32::MAX, 1, 1), 10, 10),
        Err("Perception region vertical bounds overflow".to_string())
    );
    assert_eq!(
        validate_region(region(5, 6, 7, 8), 10, 20),
        Err("Perception region (5, 6, 7, 8) exceeds monitor size 10x20".to_string())
    );
}

#[test]
fn crops_rows_out_of_a_capture() {
    // A 3x2 image whose bytes count up from 0.
    let source: Vec<u8> = (0u8..24).collect();
    let cropped = crop_rgba(&source, 3, 2, region(1, 0, 2, 2)).unwrap();
    assert_eq!(
        cropped,
        vec![4, 5, 6, 7, 8, 9, 10, 11, 16, 17, 18, 19, 20, 21, 22, 23]
    );
    // A region that runs past the right edge takes the next row's first pixels.
    assert_eq!(
        crop_rgba(&source, 3, 2, region(2, 0, 2, 1)).unwrap(),
        (8u8..16).collect::<Vec<u8>>()
    );
    assert_eq!(crop_rgba(&source, 3, 2, region(9, 9, 5, 0)).unwrap(), Vec::<u8>::new());
    assert_eq!(
        crop_rgba(&source[..20], 3, 2, region(0, 0, 1, 1)),
        Err("Frozen screen contains 20 bytes; expected 24".to_string())
    );
}

#[test]
fn counts_channel_differences() {
    let template = vec![10, 20, 30, 255, 0, 0, 0, 0];
    let frame = vec![12, 15, 30, 0, 255, 0, 1, 9];
    assert_eq!(similarity_counts(&template, &frame), Some((2 + 5 + 255 + 1, 6)));
    assert_eq!(similarity_counts(&template, &frame[..4]), None);
    assert_eq!(similarity_counts(&[], &[]), None);
}

#[test]
fn checks_condition_files() {
    assert_eq!(check_condition(1, true, 500, true), Ok(()));
    assert_eq!(
        check_condition(2, true, 500, true),
        Err("Unsupported perception condition version 2; expected 1".to_string())
    );
    assert_eq!(
        check_condition(1, false, 500, true),
        Err("Perception condition threshold must be between 0 and 1".to_string())
    );
    assert_eq!(
        check_condition(1, true, 0, true),
        Err("Perception condition pollIntervalMs must be greater than 0".to_string())
    );
    assert_eq!(
        check_condition(1, true, 500, false),
        Err("Perception condition template must be a relative path".to_string())
    );
    assert_eq!(check_condition_extension(Some("json"), "a.json"), Ok(()));
    assert_eq!(
        check_condition_extension(Some("txt"), "a.txt"),
        Err("Perception condition path must use the .json extension: a.txt".to_string())
    );
    assert_eq!(
        check_condition_extension(None, "a"),
        Err("Perception condition path must use the .json extension: a".to_string())
    );
    assert_eq!(template_file_name("door"), "door.png");
}

#[test]
fn checks_monitor_and_template_sizes() {
    assert_eq!(check_monitor_size(1920, 1080, 1920, 1080), Ok(()));
    assert_eq!(
        check_monitor_size(1920, 1080, 2560, 1440),
        Err("Configured monitor size is 1920x1080, but it is currently 2560x1440; record the condition again".to_string())
    );
    assert_eq!(check_template_size(4, 5, region(0, 0, 4, 5)), Ok(()));
    assert_eq!(
        check_template_size(4, 6, region(0, 0, 4, 5)),
        Err("Template is 4x6, but the configured region is 4x5".to_string())
    );
}

#[test]
fn describes_results_and_errors() {
    assert_eq!(recognition_summary("hello"), "OCR: hello");
    let error = PerceptionError { request_id: 42, message: "ocr failed: x".to_string() };
    assert_eq!(error.describe(), "request 42 failed: ocr failed: x");
}

#[test]
fn bounds_the_worker_pool() {
    assert_eq!(initial_worker_count(0), 1);
    assert_eq!(initial_worker_count(3), 3);
    assert_eq!(initial_worker_count(100), MAX_WORKER_COUNT);

    let idle = vec![PerceptionWorker { id: 0, perceptor: (), status: WorkerStatus::Idle }];
    let mut pool = PoolState::new(idle);
    assert_eq!(pool.total_workers(), 1);
    let worker = match pool.checkout(7) {
        Checkout::Reuse(worker) => worker,
        _ => panic!("expected the idle worker"),
    };
    assert_eq!(worker.id, 0);
    assert_eq!(worker.status, WorkerStatus::Working(7));
    for expected in 1..MAX_WORKER_COUNT {
        match pool.checkout(8) {
            Checkout::Build(id) => assert_eq!(id, expected),
            _ => panic!("expected room for a new worker"),
        }
        pool.finish_build();
    }
    assert!(matches!(pool.checkout(9), Checkout::Wait));
    assert_eq!(pool.total_workers(), MAX_WORKER_COUNT);
    pool.release(worker);
    assert_eq!(pool.idle_workers.len(), 1);
    assert_eq!(pool.idle_workers[0].status, WorkerStatus::Idle);
    assert!(matches!(pool.checkout(10), Checkout::Reuse(_)));
}

#[test]
fn hands_out_a_completed_response_once() {
    let mut future = PerceptionFuture::new();
    assert!(future.poll().is_none());
    assert!(future.waker_registered);
    let result = PerceptionResult {
        request_id: 3,
        region: ScreenRect::from(0, 0, 10, 10),
        summary: "OCR: a".to_string(),
        text: "a".to_string(),
        latency_ms: 1,
    };
    assert!(complete_future(&mut future, Ok(result)));
    assert!(!future.waker_registered);
    match future.poll() {
        Some(Ok(result)) => assert_eq!(result.text, "a"),
        _ => panic!("expected the response"),
    }
    assert!(future.poll().is_none());

    let mut quiet = PerceptionFuture::new();
    assert!(!complete_future(
        &mut quiet,
        Err(PerceptionError { request_id: 1, message: "x".to_string() })
    ));
}

#[test]
fn keeps_only_dragged_regions_with_area() {
    assert_eq!(region_between(10, 20, 15, 30), Some(region(10, 20, 5, 10)));
    assert_eq!(region_between(10, 20, 10, 30), None);
    assert_eq!(region_between(10, 20, 15, 19), None);
}

#[test]
fn cuts_the_selected_template() {
    let frame: Vec<u8> = (0u8..24).collect();
    assert_eq!(
        condition_template(3, 2, &frame, None),
        Err("Perception region selection was cancelled".to_string())
    );
    assert_eq!(
        condition_template(3, 2, &frame, Some(region(2, 0, 2, 1))),
        Err("Perception region (2, 0, 2, 1) exceeds monitor size 3x2".to_string())
    );
    assert_eq!(
        condition_template(3, 2, &frame[..8], Some(region(0, 0, 1, 1))),
        Err("Frozen screen contains 8 bytes; expected 24".to_string())
    );
    assert_eq!(
        condition_template(3, 2, &frame, Some(region(1, 1, 2, 1))),
        Ok((region(1, 1, 2, 1), (16u8..24).collect::<Vec<u8>>()))
    );
    assert_eq!(template_name(Some("door")), Ok("door.png".to_string()));
    assert_eq!(
        template_name(None),
        Err("Perception condition filename must be valid UTF-8".to_string())
    );
}

#[test]
fn checks_the_watched_monitor_in_order() {
    assert_eq!(check_watch_monitor(100, 50, 100, 50, region(10, 10, 20, 20)), Ok(()));
    assert_eq!(
        check_watch_monitor(100, 50, 200, 50, region(90, 10, 20, 20)),
        Err("Configured monitor size is 100x50, but it is currently 200x50; record the condition again".to_string())
    );
    assert_eq!(
        check_watch_monitor(100, 50, 100, 50, region(90, 10, 20, 20)),
        Err("Perception region (90, 10, 20, 20) exceeds monitor size 100x50".to_string())
    );
}

#[test]
fn encodes_the_template_as_png() {
    let pixels: Vec<u8> = vec![1, 2, 3, 4, 5, 6, 7, 8];
    let png = template_png(region(0, 0, 2, 1), &pixels).unwrap();
    assert_eq!(&png[..8], &[137, 80, 78, 71, 13, 10, 26, 10]);
    let decoded = image::load_from_memory(&png).unwrap().into_rgba8();
    assert_eq!((decoded.width(), decoded.height()), (2, 1));
    assert_eq!(decoded.into_raw(), pixels);
    let error = template_png(region(0, 0, 0, 3), &[]).unwrap_err();
    assert!(error.starts_with("Unable to encode template as PNG: "));
}

#[test]
fn compares_monitor_bounds() {
    let a = MonitorBounds { x: 0, y: 0, width: 1920, height: 1080 };
    let b = MonitorBounds { x: 1920, y: 0, width: 1920, height: 1080 };
    assert!(same_monitor(&a, &a));
    assert!(!same_monitor(&a, &b));
}
