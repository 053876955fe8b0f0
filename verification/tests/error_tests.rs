//! Tests of the error types and their renderings.

use daemon_monitor::error::status_from_error;
use daemon_monitor::error::AppError;
use daemon_monitor::error::DockerMonitorError;
use daemon_monitor::status::DockerStatus;

#[test]
fn test_app_error_display() {
    let error = AppError::Application("test error".to_string());
    assert_eq!(error.message(), "Application error: test error");
}

#[test]
fn test_timeout_error() {
    let error = AppError::Timeout {
        operation: "test".to_string(),
    };
    assert_eq!(error.message(), "Operation timed out: test");
}

#[test]
fn test_app_error_other_variants() {
    assert_eq!(
        AppError::Configuration("bad".to_string()).message(),
        "Configuration error: bad"
    );
    assert_eq!(
        AppError::Network("down".to_string()).message(),
        "Network error: down"
    );
    assert_eq!(
        AppError::Permission("denied".to_string()).message(),
        "Permission denied: denied"
    );
    assert_eq!(
        AppError::NotFound { resource: "socket".to_string() }.message(),
        "Resource not found: socket"
    );
    assert_eq!(
        AppError::InvalidState("odd".to_string()).message(),
        "Invalid state: odd"
    );
}

#[test]
fn test_app_error_from_string() {
    let error = AppError::from("oops".to_string());
    assert_eq!(error.message(), "Application error: oops");
    let error = AppError::from("oops");
    assert_eq!(error.message(), "Application error: oops");
}

#[test]
fn test_monitor_error_messages() {
    assert_eq!(
        DockerMonitorError::Connection { message: "refused".to_string() }.message(),
        "Failed to connect to Docker daemon: refused"
    );
    assert_eq!(
        DockerMonitorError::Api { message: "bad gateway".to_string() }.message(),
        "Docker API error: bad gateway"
    );
    assert_eq!(
        DockerMonitorError::EventEmission { message: "closed".to_string() }.message(),
        "Failed to emit Tauri event: closed"
    );
    assert_eq!(
        DockerMonitorError::Internal { message: "bug".to_string() }.message(),
        "Internal error: bug"
    );
}

#[test]
fn test_error_becomes_status() {
    let error = DockerMonitorError::Api { message: "boom".to_string() };
    let status = status_from_error(&error);
    assert_eq!(
        status,
        DockerStatus::Error { message: "Docker API error: boom".to_string() }
    );
}
