//! Tests of endpoint classification and the connection-attempt order.

use daemon_monitor::resolver::classify_endpoint;
use daemon_monitor::resolver::connection_attempts;
use daemon_monitor::resolver::invalid_endpoint_message;
use daemon_monitor::resolver::ConnectionMethod;
use daemon_monitor::resolver::Platform;
use daemon_monitor::resolver::ResolveError;

#[test]
fn test_docker_host_connection_validation() {
    // An endpoint override with an unknown scheme is rejected.
    let result = classify_endpoint("invalid://format");
    assert!(result.is_err());

    // A well-formed TCP override maps to the HTTP transport.
    let result = classify_endpoint("tcp://localhost:2375");
    assert_eq!(result, Ok(ConnectionMethod::Http));
}

#[test]
fn test_cross_platform_compilation() {
    // The resolver's strategy table covers every platform.
    let windows = connection_attempts(None, Platform::Windows);
    assert_eq!(
        windows,
        vec![ConnectionMethod::NamedPipe, ConnectionMethod::Http]
    );
    println!("Compiling for Windows");

    let linux = connection_attempts(None, Platform::Linux);
    assert_eq!(
        linux,
        vec![ConnectionMethod::UnixSocket, ConnectionMethod::Http]
    );
    println!("Compiling for Linux");

    let macos = connection_attempts(None, Platform::MacOs);
    assert_eq!(
        macos,
        vec![ConnectionMethod::UnixSocket, ConnectionMethod::Http]
    );
    println!("Compiling for macOS");

    println!("Cross-platform compilation test passed");
}

#[test]
fn test_classify_endpoint_schemes() {
    assert_eq!(
        classify_endpoint("unix:///var/run/docker.sock"),
        Ok(ConnectionMethod::UnixSocket)
    );
    assert_eq!(
        classify_endpoint("npipe:////./pipe/docker_engine"),
        Ok(ConnectionMethod::NamedPipe)
    );
    assert_eq!(
        classify_endpoint("tcp://127.0.0.1:2375"),
        Ok(ConnectionMethod::Http)
    );
    assert_eq!(
        classify_endpoint(""),
        Err(ResolveError::InvalidEndpointFormat)
    );
    assert_eq!(
        classify_endpoint("tcp:/"),
        Err(ResolveError::InvalidEndpointFormat)
    );
}

#[test]
fn test_override_comes_first() {
    let attempts = connection_attempts(Some("unix:///var/run/docker.sock"), Platform::Windows);
    assert_eq!(
        attempts,
        vec![
            ConnectionMethod::UnixSocket,
            ConnectionMethod::NamedPipe,
            ConnectionMethod::Http
        ]
    );
}

#[test]
fn test_malformed_override_falls_through() {
    let attempts = connection_attempts(Some("invalid://format"), Platform::Linux);
    assert_eq!(
        attempts,
        vec![ConnectionMethod::UnixSocket, ConnectionMethod::Http]
    );
}

#[test]
fn test_resolve_error_messages() {
    assert_eq!(
        ResolveError::InvalidEndpointFormat.message(),
        "Invalid DOCKER_HOST format"
    );
    assert_eq!(
        ResolveError::AllMethodsFailed.message(),
        "Unable to connect to Docker daemon via any available method"
    );
    assert_eq!(
        invalid_endpoint_message("invalid://format"),
        "Invalid DOCKER_HOST format: invalid://format"
    );
}
