//! Tests of the restart-pattern detector.

use daemon_monitor::history::HistoryEntry;
use daemon_monitor::restart::detect_restart;
use daemon_monitor::status::DockerStatus;

fn entry_running(version: &str, at_ms: u64) -> HistoryEntry {
    HistoryEntry {
        status: DockerStatus::Running { version: version.to_string() },
        at_ms,
    }
}

fn entry_stopped(at_ms: u64) -> HistoryEntry {
    HistoryEntry { status: DockerStatus::Stopped, at_ms }
}

#[test]
fn test_restart_detected_on_brief_outage() {
    // Running, stopped five seconds later, running again seven seconds
    // after that: a brief outage bracketed by running states.
    let t0: u64 = 100_000;
    let history = vec![
        entry_running("1.0", t0),
        entry_stopped(t0 + 5_000),
        entry_running("1.0", t0 + 12_000),
    ];
    assert!(detect_restart(&history, t0 + 12_000));
}

#[test]
fn test_no_restart_on_long_outage() {
    // The Running -> Stopped gap is twenty seconds: a sustained outage,
    // not a restart; moreover the oldest entry has aged out of relevance.
    let t0: u64 = 100_000;
    let history = vec![
        entry_running("1.0", t0),
        entry_stopped(t0 + 20_000),
        entry_running("1.0", t0 + 40_000),
    ];
    assert!(!detect_restart(&history, t0 + 40_000));
}

#[test]
fn test_no_restart_with_fewer_than_three_entries() {
    let t0: u64 = 100_000;
    let history = vec![entry_running("1.0", t0), entry_stopped(t0 + 1_000)];
    assert!(!detect_restart(&history, t0 + 1_000));
}

#[test]
fn test_restart_gap_boundaries() {
    let t0: u64 = 100_000;
    // A Running -> Stopped gap of exactly eight seconds is not brief enough.
    let at_bound = vec![
        entry_running("1.0", t0),
        entry_stopped(t0 + 8_000),
        entry_running("1.0", t0 + 9_000),
    ];
    assert!(!detect_restart(&at_bound, t0 + 9_000));
    // One millisecond under the bound is.
    let under_bound = vec![
        entry_running("1.0", t0),
        entry_stopped(t0 + 7_999),
        entry_running("1.0", t0 + 9_000),
    ];
    assert!(detect_restart(&under_bound, t0 + 9_000));
    // A Stopped -> Running gap of exactly fifteen seconds is too long.
    let second_gap = vec![
        entry_running("1.0", t0),
        entry_stopped(t0 + 1_000),
        entry_running("1.0", t0 + 16_000),
    ];
    assert!(!detect_restart(&second_gap, t0 + 16_000));
}

#[test]
fn test_restart_needs_running_stopped_running() {
    let t0: u64 = 100_000;
    // Stopped -> Running -> Stopped is not the pattern.
    let history = vec![
        entry_stopped(t0),
        entry_running("1.0", t0 + 1_000),
        entry_stopped(t0 + 2_000),
    ];
    assert!(!detect_restart(&history, t0 + 2_000));
    // An Error entry in the middle is not a restart either.
    let with_error = vec![
        entry_running("1.0", t0),
        HistoryEntry {
            status: DockerStatus::Error { message: "x".to_string() },
            at_ms: t0 + 1_000,
        },
        entry_running("1.0", t0 + 2_000),
    ];
    assert!(!detect_restart(&with_error, t0 + 2_000));
}

#[test]
fn test_restart_pattern_found_later_in_history() {
    // The window may start anywhere among the relevant entries.
    let t0: u64 = 100_000;
    let history = vec![
        entry_stopped(t0),
        entry_running("1.0", t0 + 1_000),
        entry_stopped(t0 + 3_000),
        entry_running("1.0", t0 + 6_000),
    ];
    assert!(detect_restart(&history, t0 + 6_000));
}

#[test]
fn test_old_entries_are_not_relevant() {
    // The same brief-outage shape, observed long ago: every entry has
    // aged past the relevance window, so nothing is suspected.
    let t0: u64 = 100_000;
    let history = vec![
        entry_running("1.0", t0),
        entry_stopped(t0 + 5_000),
        entry_running("1.0", t0 + 12_000),
    ];
    assert!(!detect_restart(&history, t0 + 40_000));
}
