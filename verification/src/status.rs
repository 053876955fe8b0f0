//! The status model: the classification of one daemon probe.
//!
//! Every failure mode of a probe is mapped into this small model rather than
//! propagated as an error, because the poller must always have a value to
//! compare and publish. Equality is structural: two `Running` values are
//! equal only if their version strings match, so a version bump while
//! otherwise "running" counts as a transition.

use vstd::prelude::*;

verus! {

/// Mathematical model of a [`DockerStatus`]: the same three variants over
/// character sequences.
pub enum StatusView {
    /// The daemon responded successfully.
    Running { version: Seq<char> },
    /// No connection could be established.
    Stopped,
    /// A connection succeeded but the version query itself failed.
    Error { message: Seq<char> },
}

/// Classified status of the daemon, exactly one variant active at a time.
#[derive(Clone, Debug)]
pub enum DockerStatus {
    /// Daemon responded successfully; `version` is the reported engine
    /// version string, `"Unknown"` if absent from the probe response.
    Running { version: String },
    /// Daemon is stopped or not reachable (transport-level failure or a
    /// probe timeout classified as unreachable).
    Stopped,
    /// Daemon was reachable but malfunctioning: the connection succeeded
    /// and the version query itself failed.
    Error { message: String },
}

impl View for DockerStatus {
    type V = StatusView;

    open spec fn view(&self) -> StatusView {
        match self {
            DockerStatus::Running { version } => StatusView::Running { version: version@ },
            DockerStatus::Stopped => StatusView::Stopped,
            DockerStatus::Error { message } => StatusView::Error { message: message@ },
        }
    }
}

impl DeepView for DockerStatus {
    type V = StatusView;

    open spec fn deep_view(&self) -> StatusView {
        self.view()
    }
}

impl PartialEq for DockerStatus {
    fn eq(&self, other: &Self) -> (r: bool) {
        match (self, other) {
            (DockerStatus::Running { version: a }, DockerStatus::Running { version: b }) => a.eq(b),
            (DockerStatus::Stopped, DockerStatus::Stopped) => true,
            (DockerStatus::Error { message: a }, DockerStatus::Error { message: b }) => a.eq(b),
            _ => false,
        }
    }
}

impl vstd::std_specs::cmp::PartialEqSpecImpl for DockerStatus {
    open spec fn obeys_eq_spec() -> bool {
        true
    }

    open spec fn eq_spec(&self, other: &Self) -> bool {
        self@ == other@
    }
}

impl DockerStatus {
    /// A copy with the same model, usable wherever a contract must relate
    /// the copy to the original.
    pub fn duplicate(&self) -> (r: DockerStatus)
        ensures
            r@ == self@,
    {
        match self {
            DockerStatus::Running { version } => DockerStatus::Running { version: version.clone() },
            DockerStatus::Stopped => DockerStatus::Stopped,
            DockerStatus::Error { message } => DockerStatus::Error { message: message.clone() },
        }
    }

    /// Whether this is the `Running` variant.
    pub fn is_running(&self) -> (r: bool)
        ensures
            r == (self@ is Running),
    {
        match self {
            DockerStatus::Running { .. } => true,
            _ => false,
        }
    }

    /// Whether this is the `Stopped` variant.
    pub fn is_stopped(&self) -> (r: bool)
        ensures
            r == (self@ is Stopped),
    {
        match self {
            DockerStatus::Stopped => true,
            _ => false,
        }
    }
}

/// The version string a successful probe reports: the one carried by the
/// response, or `"Unknown"` when the response carried none.
pub open spec fn version_or_unknown_spec(version: Option<Seq<char>>) -> Seq<char> {
    match version {
        Some(v) => v,
        None => "Unknown"@,
    }
}

/// Computes [`version_or_unknown_spec`].
pub fn version_or_unknown(version: Option<String>) -> (r: String)
    ensures
        r@ == version_or_unknown_spec(version.deep_view()),
{
    match version {
        Some(v) => v,
        None => "Unknown".to_owned(),
    }
}

} // verus!
