use time_tracker::capture::{
    finish_capture, plan_capture, plan_capture_now, window_or_unknown, CaptureError, LocalTime,
    WindowInfo,
};
use time_tracker::state::{get_timer_time, start_timer, AppState};

fn reading() -> LocalTime {
    LocalTime { year: 2024, month: 3, day: 7, hour: 9, minute: 5, second: 30 }
}

#[test]
fn plan_carries_category_timestamp_and_filename() {
    let win = Some(WindowInfo { app_name: "Slack".to_string(), title: "general".to_string() });
    let plan = plan_capture(win, &reading());
    assert_eq!(plan.category, "Meeting/Communication");
    assert_eq!(plan.timestamp, "2024-03-07_09-05-30");
    assert_eq!(plan.filename, "screenshot_2024-03-07_09-05-30.png");
}

#[test]
fn failed_window_query_degrades_to_default_bucket() {
    let plan = plan_capture(None, &reading());
    assert_eq!(plan.category, "Work");
}

#[test]
fn window_fallback_substitutes_the_sentinel() {
    let w = window_or_unknown(None);
    assert_eq!(w.app_name, "Unknown");
    assert_eq!(w.title, "Unknown");
    let w = window_or_unknown(Some(WindowInfo {
        app_name: "Code".to_string(),
        title: "lib.rs".to_string(),
    }));
    assert_eq!(w.app_name, "Code");
    assert_eq!(w.title, "lib.rs");
}

#[test]
fn captures_within_one_second_collide_on_the_same_filename() {
    let first = plan_capture(None, &reading());
    let second = plan_capture(None, &reading());
    assert_eq!(first.timestamp, second.timestamp);
    assert_eq!(first.filename, second.filename);
    let done_first = finish_capture(first, "/shots/a.png".to_string(), Ok(()));
    let done_second = finish_capture(second, "/shots/a.png".to_string(), Ok(()));
    let done_first = done_first.unwrap();
    let done_second = done_second.unwrap();
    assert_eq!(done_first.timestamp, done_second.timestamp);
    assert_eq!(done_first.path, done_second.path);
}

#[test]
fn successful_worker_yields_the_result_record() {
    let plan = plan_capture(None, &reading());
    let r = finish_capture(plan, "/data/screenshots/s.png".to_string(), Ok(())).unwrap();
    assert_eq!(r.path, "/data/screenshots/s.png");
    assert_eq!(r.category, "Work");
    assert_eq!(r.timestamp, "2024-03-07_09-05-30");
}

#[test]
fn each_failure_stage_keeps_its_message() {
    let cases = vec![
        (CaptureError::Directory("permission denied".to_string()), "permission denied"),
        (CaptureError::NoDisplay, "No screen found"),
        (CaptureError::Capture("frame grab failed".to_string()), "frame grab failed"),
        (CaptureError::Save("disk full".to_string()), "disk full"),
        (CaptureError::Join("worker panicked".to_string()), "worker panicked"),
    ];
    for (err, want) in cases {
        assert_eq!(err.message(), want);
    }
}

#[test]
fn worker_failure_surfaces_as_the_error() {
    let plan = plan_capture(None, &reading());
    let r = finish_capture(plan, "/shots/s.png".to_string(), Err(CaptureError::NoDisplay));
    assert!(matches!(r, Err(CaptureError::NoDisplay)));
}

#[test]
fn directory_failure_leaves_the_accumulator_untouched() {
    let state = AppState::new();
    start_timer(&state, 0);
    let before = get_timer_time(&state, 5_000);
    let plan = plan_capture(None, &reading());
    let r = finish_capture(
        plan,
        "/data/screenshots/s.png".to_string(),
        Err(CaptureError::Directory("permission denied".to_string())),
    );
    assert!(matches!(r, Err(CaptureError::Directory(m)) if m == "permission denied"));
    let after = get_timer_time(&state, 5_000);
    assert_eq!(before.seconds, after.seconds);
    assert_eq!(before.is_running, after.is_running);
}

#[test]
fn planning_now_derives_the_filename_from_the_timestamp() {
    let plan = plan_capture_now(None);
    assert_eq!(plan.category, "Work");
    assert_eq!(plan.filename, format!("screenshot_{}.png", plan.timestamp));
    assert_eq!(plan.timestamp.len(), 19);
}
