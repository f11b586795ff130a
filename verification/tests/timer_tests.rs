use time_tracker::state::{get_timer_time, greet, pause_timer, start_timer, stop_timer, AppState};
use time_tracker::timer::{get_time_info_internal, TimerState};

#[test]
fn fresh_accumulator_reads_zero() {
    let state = AppState::new();
    let info = get_timer_time(&state, 0);
    assert_eq!(info.seconds, 0);
    assert!(!info.is_running);
    assert_eq!(info.formatted_time, "00:00:00");
}

#[test]
fn start_pause_accumulates_elapsed_time() {
    let state = AppState::new();
    let info = start_timer(&state, 1_000);
    assert!(info.is_running);
    assert_eq!(info.seconds, 0);
    let info = pause_timer(&state, 3_500);
    assert!(!info.is_running);
    assert_eq!(info.seconds, 2);
}

#[test]
fn accumulation_sums_over_several_start_pause_pairs() {
    let state = AppState::new();
    start_timer(&state, 0);
    pause_timer(&state, 1_000);
    start_timer(&state, 5_000);
    pause_timer(&state, 7_000);
    start_timer(&state, 20_000);
    let info = pause_timer(&state, 24_000);
    assert_eq!(info.seconds, 7);
}

#[test]
fn redundant_start_keeps_the_first_start_time() {
    let state = AppState::new();
    start_timer(&state, 1_000);
    start_timer(&state, 9_000);
    let info = pause_timer(&state, 10_000);
    assert_eq!(info.seconds, 9);
}

#[test]
fn redundant_pause_changes_nothing() {
    let state = AppState::new();
    start_timer(&state, 0);
    pause_timer(&state, 4_000);
    let info = pause_timer(&state, 9_000);
    assert_eq!(info.seconds, 4);
    assert!(!info.is_running);
}

#[test]
fn stop_returns_pre_reset_snapshot_and_resets() {
    let state = AppState::new();
    start_timer(&state, 0);
    pause_timer(&state, 2_000);
    start_timer(&state, 3_000);
    let info = stop_timer(&state, 5_000);
    assert_eq!(info.seconds, 4);
    assert!(info.is_running);
    let after = get_timer_time(&state, 5_000);
    assert_eq!(after.seconds, 0);
    assert!(!after.is_running);
    assert_eq!(after.formatted_time, "00:00:00");
}

#[test]
fn stop_on_fresh_accumulator_reads_zero() {
    let state = AppState::new();
    let info = stop_timer(&state, 42_000);
    assert_eq!(info.seconds, 0);
    assert!(!info.is_running);
}

#[test]
fn query_does_not_mutate_state() {
    let state = AppState::new();
    start_timer(&state, 0);
    pause_timer(&state, 6_000);
    let first = get_timer_time(&state, 10_000);
    let second = get_timer_time(&state, 10_000);
    assert_eq!(first.seconds, second.seconds);
    assert_eq!(first.is_running, second.is_running);
    assert_eq!(first.formatted_time, second.formatted_time);
}

#[test]
fn query_folds_in_flight_time_while_running() {
    let state = AppState::new();
    start_timer(&state, 0);
    let info = get_timer_time(&state, 12_345);
    assert!(info.is_running);
    assert_eq!(info.seconds, 12);
}

#[test]
fn timer_state_ops_directly() {
    let mut t = TimerState::new();
    let info = get_time_info_internal(&t, 0);
    assert_eq!(info.seconds, 0);
    assert!(!info.is_running);
    t.start(500);
    t.pause(2_500);
    let info = get_time_info_internal(&t, 9_999);
    assert_eq!(info.seconds, 2);
    assert!(!info.is_running);
    t.stop();
    let info = get_time_info_internal(&t, 9_999);
    assert_eq!(info.seconds, 0);
}

#[test]
fn greet_builds_the_greeting() {
    assert_eq!(greet("Alice"), "Hello, Alice! You've been greeted from Rust!");
}
