//! Tests of the adaptive poller state machine.

use daemon_monitor::monitor::DockerMonitor;
use daemon_monitor::status::DockerStatus;
use daemon_monitor::tier::Tier;

fn running(version: &str) -> DockerStatus {
    DockerStatus::Running { version: version.to_string() }
}

#[test]
fn test_docker_monitor_new() {
    let monitor = DockerMonitor::new();
    let status = monitor.get_current_status();
    assert!(matches!(status, DockerStatus::Stopped));
}

#[test]
fn test_connection_fallback_logic() {
    // A monitor that has not managed any probe yet reports Stopped.
    let monitor = DockerMonitor::new();
    let status = monitor.get_current_status();
    assert!(matches!(status, DockerStatus::Stopped));
}

#[test]
fn test_initial_tier_is_fast() {
    let monitor = DockerMonitor::new();
    assert_eq!(monitor.current_tier(), Tier::Fast);
    assert_eq!(monitor.current_interval_ms(), 1500);
    assert_eq!(monitor.history_len(), 0);
    assert!(!monitor.is_restart_suspected());
    assert!(!monitor.is_cancelled());
}

#[test]
fn test_notify_exactly_on_transitions() {
    let mut monitor = DockerMonitor::new();
    // Stopped -> Stopped: a repeat of the initial status, no notification.
    assert!(!monitor.tick(DockerStatus::Stopped, 1000));
    // Stopped -> Running: a transition, one notification.
    assert!(monitor.tick(running("1.0"), 2000));
    // Running -> Running, same version: a repeat.
    assert!(!monitor.tick(running("1.0"), 3000));
    // A version bump while otherwise running is a transition.
    assert!(monitor.tick(running("1.1"), 4000));
    // Running -> Error: a transition.
    assert!(monitor.tick(
        DockerStatus::Error { message: "boom".to_string() },
        5000
    ));
    // Error -> Error, same message: a repeat.
    assert!(!monitor.tick(
        DockerStatus::Error { message: "boom".to_string() },
        6000
    ));
}

#[test]
fn test_transition_publishes_status() {
    let mut monitor = DockerMonitor::new();
    monitor.tick(running("24.0.5"), 1000);
    match monitor.get_current_status() {
        DockerStatus::Running { version } => assert_eq!(version, "24.0.5"),
        other => panic!("expected Running, got {:?}", other),
    }
    monitor.tick(DockerStatus::Stopped, 2000);
    assert!(matches!(monitor.get_current_status(), DockerStatus::Stopped));
}

#[test]
fn test_history_bound_and_order() {
    let mut monitor = DockerMonitor::new();
    // Ten transitions: alternate stopped and ten distinct versions.
    let mut t: u64 = 1000;
    for i in 0..10u32 {
        monitor.tick(running(&format!("{}.0", i)), t);
        t += 1000;
        monitor.tick(DockerStatus::Stopped, t);
        t += 1000;
    }
    assert_eq!(monitor.history_len(), 6);
    // Chronological, and holding the most recent transitions.
    let mut prev_at = 0u64;
    for i in 0..monitor.history_len() {
        let e = monitor.history_at(i);
        assert!(e.at_ms >= prev_at);
        assert!(e.at_ms > t - 7000);
        prev_at = e.at_ms;
    }
    let last = monitor.history_at(5);
    assert_eq!(last.at_ms, t - 1000);
    assert!(matches!(last.status, DockerStatus::Stopped));
}

#[test]
fn test_tier_relaxation_and_reset() {
    let mut monitor = DockerMonitor::new();
    // One transition tightens the cadence at once.
    assert!(monitor.tick(running("1.0"), 1000));
    assert_eq!(monitor.current_tier(), Tier::Quick);
    // Two unchanged ticks: still quick.
    monitor.tick(running("1.0"), 2000);
    monitor.tick(running("1.0"), 3000);
    assert_eq!(monitor.current_tier(), Tier::Quick);
    assert_eq!(monitor.stable_count(), 2);
    // Third unchanged tick relaxes to fast.
    monitor.tick(running("1.0"), 4000);
    assert_eq!(monitor.current_tier(), Tier::Fast);
    // Fourth: still fast.
    monitor.tick(running("1.0"), 5000);
    assert_eq!(monitor.current_tier(), Tier::Fast);
    // Fifth unchanged tick relaxes to normal.
    monitor.tick(running("1.0"), 6000);
    assert_eq!(monitor.current_tier(), Tier::Normal);
    assert_eq!(monitor.current_interval_ms(), 3000);
    // A subsequent change reverts to quick on that very tick.
    assert!(monitor.tick(DockerStatus::Stopped, 7000));
    assert_eq!(monitor.current_tier(), Tier::Quick);
    assert_eq!(monitor.current_interval_ms(), 800);
}

#[test]
fn test_restart_window_keeps_quick_cadence() {
    let mut monitor = DockerMonitor::new();
    // A brief outage bracketed by running states: a suspected restart.
    monitor.tick(running("1.0"), 100_000);
    monitor.tick(DockerStatus::Stopped, 105_000);
    monitor.tick(running("1.0"), 112_000);
    assert!(monitor.is_restart_suspected());
    // Five unchanged ticks inside the detection window would normally
    // relax the cadence; the suspicion keeps it quick.
    for i in 1..=5u64 {
        monitor.tick(running("1.0"), 112_000 + i * 1000);
    }
    assert_eq!(monitor.current_tier(), Tier::Quick);
    assert!(monitor.is_restart_suspected());
    // Once the window has passed and stability has accumulated, the
    // suspicion is cleared and the cadence rests at normal.
    monitor.tick(running("1.0"), 130_000);
    assert!(!monitor.is_restart_suspected());
    monitor.tick(running("1.0"), 133_000);
    assert_eq!(monitor.current_tier(), Tier::Normal);
}

#[test]
fn test_cancel_freezes_status() {
    let mut monitor = DockerMonitor::new();
    monitor.tick(running("1.0"), 1000);
    monitor.cancel();
    assert!(monitor.is_cancelled());
    // Further ticks change nothing and never notify.
    assert!(!monitor.tick(DockerStatus::Stopped, 2000));
    assert!(!monitor.tick(
        DockerStatus::Error { message: "gone".to_string() },
        3000
    ));
    match monitor.get_current_status() {
        DockerStatus::Running { version } => assert_eq!(version, "1.0"),
        other => panic!("expected frozen Running, got {:?}", other),
    }
    assert_eq!(monitor.history_len(), 1);
}

#[test]
fn test_cancel_is_idempotent() {
    let mut monitor = DockerMonitor::new();
    monitor.tick(running("1.0"), 1000);
    monitor.cancel();
    let status_once = monitor.get_current_status();
    let tier_once = monitor.current_tier();
    monitor.cancel();
    assert!(monitor.is_cancelled());
    assert_eq!(monitor.get_current_status(), status_once);
    assert_eq!(monitor.current_tier(), tier_once);
}

#[test]
fn test_status_equality_is_structural() {
    assert_eq!(running("1.0"), running("1.0"));
    assert_ne!(running("1.0"), running("1.1"));
    assert_ne!(running("1.0"), DockerStatus::Stopped);
    assert_eq!(
        DockerStatus::Error { message: "a".to_string() },
        DockerStatus::Error { message: "a".to_string() }
    );
    assert_ne!(
        DockerStatus::Error { message: "a".to_string() },
        DockerStatus::Error { message: "b".to_string() }
    );
}
