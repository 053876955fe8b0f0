//! Error types of the agent and of the monitor.
//!
//! Daemon-reachability failures are data, not exceptions: the polling loop
//! absorbs every one of them into the status model, so these types only
//! carry what is worth rendering — a category and a message. Each renders
//! itself through a `message` function with an exact contract.

use vstd::prelude::*;
use vstd::string::StringExecFns;

verus! {

/// Main application error type.
#[derive(Debug)]
pub enum AppError {
    /// General application error.
    Application(String),
    /// Configuration error.
    Configuration(String),
    /// Network error.
    Network(String),
    /// Timeout error.
    Timeout {
        /// The operation that timed out.
        operation: String,
    },
    /// Permission error.
    Permission(String),
    /// Resource not found.
    NotFound {
        /// The resource that was not found.
        resource: String,
    },
    /// Invalid state error.
    InvalidState(String),
}

/// Model of an [`AppError`].
pub enum AppErrorView {
    /// General application error.
    Application(Seq<char>),
    /// Configuration error.
    Configuration(Seq<char>),
    /// Network error.
    Network(Seq<char>),
    /// Timeout error.
    Timeout { operation: Seq<char> },
    /// Permission error.
    Permission(Seq<char>),
    /// Resource not found.
    NotFound { resource: Seq<char> },
    /// Invalid state error.
    InvalidState(Seq<char>),
}

impl View for AppError {
    type V = AppErrorView;

    open spec fn view(&self) -> AppErrorView {
        match self {
            AppError::Application(m) => AppErrorView::Application(m@),
            AppError::Configuration(m) => AppErrorView::Configuration(m@),
            AppError::Network(m) => AppErrorView::Network(m@),
            AppError::Timeout { operation } => AppErrorView::Timeout { operation: operation@ },
            AppError::Permission(m) => AppErrorView::Permission(m@),
            AppError::NotFound { resource } => AppErrorView::NotFound { resource: resource@ },
            AppError::InvalidState(m) => AppErrorView::InvalidState(m@),
        }
    }
}

/// The rendering of an [`AppError`]: its category's prefix, then what the
/// variant carries.
pub open spec fn app_error_message_spec(e: AppErrorView) -> Seq<char> {
    match e {
        AppErrorView::Application(m) => "Application error: "@ + m,
        AppErrorView::Configuration(m) => "Configuration error: "@ + m,
        AppErrorView::Network(m) => "Network error: "@ + m,
        AppErrorView::Timeout { operation } => "Operation timed out: "@ + operation,
        AppErrorView::Permission(m) => "Permission denied: "@ + m,
        AppErrorView::NotFound { resource } => "Resource not found: "@ + resource,
        AppErrorView::InvalidState(m) => "Invalid state: "@ + m,
    }
}

impl AppError {
    /// Renders the error as [`app_error_message_spec`] says.
    pub fn message(&self) -> (r: String)
        ensures
            r@ == app_error_message_spec(self@),
    {
        match self {
            AppError::Application(m) => "Application error: ".to_owned().concat(m.as_str()),
            AppError::Configuration(m) => "Configuration error: ".to_owned().concat(m.as_str()),
            AppError::Network(m) => "Network error: ".to_owned().concat(m.as_str()),
            AppError::Timeout { operation } => "Operation timed out: ".to_owned().concat(
                operation.as_str(),
            ),
            AppError::Permission(m) => "Permission denied: ".to_owned().concat(m.as_str()),
            AppError::NotFound { resource } => "Resource not found: ".to_owned().concat(
                resource.as_str(),
            ),
            AppError::InvalidState(m) => "Invalid state: ".to_owned().concat(m.as_str()),
        }
    }
}

impl From<String> for AppError {
    fn from(err: String) -> (r: AppError) {
        AppError::Application(err)
    }
}

impl vstd::std_specs::convert::FromSpecImpl<String> for AppError {
    open spec fn obeys_from_spec() -> bool {
        true
    }

    open spec fn from_spec(err: String) -> AppError {
        AppError::Application(err)
    }
}

impl From<&str> for AppError {
    fn from(err: &str) -> (r: AppError) {
        AppError::Application(err.to_owned())
    }
}

impl vstd::std_specs::convert::FromSpecImpl<&str> for AppError {
    // A spec-level witness for the owned copy of `err` cannot be named, so
    // this conversion stays unspecified, as the `String` one is not.
    open spec fn obeys_from_spec() -> bool {
        false
    }

    open spec fn from_spec(err: &str) -> AppError {
        arbitrary()
    }
}

/// Application result type.
pub type AppResult<T> = Result<T, AppError>;

/// Error types for monitoring operations. The outside failures they stand
/// for are rendered to messages before they reach this crate.
#[derive(Debug)]
pub enum DockerMonitorError {
    /// Connection to the daemon failed.
    Connection {
        /// The underlying cause, rendered.
        message: String,
    },
    /// A daemon API call failed.
    Api {
        /// The underlying cause, rendered.
        message: String,
    },
    /// Delivering a change event to the observer failed.
    EventEmission {
        /// The underlying cause, rendered.
        message: String,
    },
    /// Internal error.
    Internal {
        /// A description of what went wrong.
        message: String,
    },
}

/// Model of a [`DockerMonitorError`].
pub enum DockerMonitorErrorView {
    /// Connection to the daemon failed.
    Connection { message: Seq<char> },
    /// A daemon API call failed.
    Api { message: Seq<char> },
    /// Delivering a change event failed.
    EventEmission { message: Seq<char> },
    /// Internal error.
    Internal { message: Seq<char> },
}

impl View for DockerMonitorError {
    type V = DockerMonitorErrorView;

    open spec fn view(&self) -> DockerMonitorErrorView {
        match self {
            DockerMonitorError::Connection { message } => DockerMonitorErrorView::Connection {
                message: message@,
            },
            DockerMonitorError::Api { message } => DockerMonitorErrorView::Api {
                message: message@,
            },
            DockerMonitorError::EventEmission { message } => DockerMonitorErrorView::EventEmission {
                message: message@,
            },
            DockerMonitorError::Internal { message } => DockerMonitorErrorView::Internal {
                message: message@,
            },
        }
    }
}

/// The rendering of a [`DockerMonitorError`].
pub open spec fn monitor_error_message_spec(e: DockerMonitorErrorView) -> Seq<char> {
    match e {
        DockerMonitorErrorView::Connection { message } => "Failed to connect to Docker daemon: "@
            + message,
        DockerMonitorErrorView::Api { message } => "Docker API error: "@ + message,
        DockerMonitorErrorView::EventEmission { message } => "Failed to emit Tauri event: "@
            + message,
        DockerMonitorErrorView::Internal { message } => "Internal error: "@ + message,
    }
}

impl DockerMonitorError {
    /// Renders the error as [`monitor_error_message_spec`] says.
    pub fn message(&self) -> (r: String)
        ensures
            r@ == monitor_error_message_spec(self@),
    {
        match self {
            DockerMonitorError::Connection { message } => "Failed to connect to Docker daemon: "
                .to_owned()
                .concat(message.as_str()),
            DockerMonitorError::Api { message } => "Docker API error: ".to_owned().concat(
                message.as_str(),
            ),
            DockerMonitorError::EventEmission { message } => "Failed to emit Tauri event: "
                .to_owned()
                .concat(message.as_str()),
            DockerMonitorError::Internal { message } => "Internal error: ".to_owned().concat(
                message.as_str(),
            ),
        }
    }
}

/// Result type for monitoring operations.
pub type DockerMonitorResult<T> = Result<T, DockerMonitorError>;

/// The status the polling loop publishes when a probe cycle surfaces an
/// error instead of a classification: the error is absorbed into the
/// status model, never propagated.
pub fn status_from_error(e: &DockerMonitorError) -> (r: crate::status::DockerStatus)
    ensures
        r@ == (crate::status::StatusView::Error { message: monitor_error_message_spec(e@) }),
{
    crate::status::DockerStatus::Error { message: e.message() }
}

} // verus!
