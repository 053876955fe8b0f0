//! Connection-cache bookkeeping and probe-outcome classification.
//!
//! The poll loop keeps at most one live daemon connection and reuses it
//! across probes until it errors or times out: an arena of one, whose slot
//! is always fully replaced — never patched — on any failure. The handle
//! itself lives outside this crate; this module owns the decision of which
//! probe path the next cycle takes and how each outcome maps into the
//! status model. Every failure mode maps to a status, none is propagated:
//! the poller must always have a value to compare and publish.

use vstd::prelude::*;
use vstd::string::StringExecFns;

use crate::status::DockerStatus;
use crate::status::StatusView;
use crate::status::version_or_unknown;
use crate::status::version_or_unknown_spec;

verus! {

/// Outcome of probing the version over an already cached connection.
#[derive(Debug)]
pub enum CachedProbeOutcome {
    /// The probe answered; `version` is the version string it carried, if
    /// any.
    Success { version: Option<String> },
    /// The probe answered with an error.
    ApiError,
    /// The probe exceeded its time bound.
    Timeout,
}

/// Model of a [`CachedProbeOutcome`].
pub enum CachedProbeOutcomeView {
    /// The probe answered with an optional version string.
    Success { version: Option<Seq<char>> },
    /// The probe answered with an error.
    ApiError,
    /// The probe exceeded its time bound.
    Timeout,
}

impl View for CachedProbeOutcome {
    type V = CachedProbeOutcomeView;

    open spec fn view(&self) -> CachedProbeOutcomeView {
        match self {
            CachedProbeOutcome::Success { version } => CachedProbeOutcomeView::Success {
                version: version.deep_view(),
            },
            CachedProbeOutcome::ApiError => CachedProbeOutcomeView::ApiError,
            CachedProbeOutcome::Timeout => CachedProbeOutcomeView::Timeout,
        }
    }
}

/// Outcome of the fresh-connect path: resolve and connect, then probe the
/// version over the new connection.
#[derive(Debug)]
pub enum FreshProbeOutcome {
    /// No connection could be established by any resolution method.
    ConnectFailed,
    /// Establishing a connection exceeded its time bound.
    ConnectTimeout,
    /// The probe answered; `version` is the version string it carried, if
    /// any.
    Success { version: Option<String> },
    /// The probe answered with an error, rendered as a message.
    ApiError { message: String },
    /// The probe exceeded its time bound.
    Timeout,
}

/// Model of a [`FreshProbeOutcome`].
pub enum FreshProbeOutcomeView {
    /// No connection could be established.
    ConnectFailed,
    /// Connecting exceeded its time bound.
    ConnectTimeout,
    /// The probe answered with an optional version string.
    Success { version: Option<Seq<char>> },
    /// The probe answered with an error message.
    ApiError { message: Seq<char> },
    /// The probe exceeded its time bound.
    Timeout,
}

impl View for FreshProbeOutcome {
    type V = FreshProbeOutcomeView;

    open spec fn view(&self) -> FreshProbeOutcomeView {
        match self {
            FreshProbeOutcome::ConnectFailed => FreshProbeOutcomeView::ConnectFailed,
            FreshProbeOutcome::ConnectTimeout => FreshProbeOutcomeView::ConnectTimeout,
            FreshProbeOutcome::Success { version } => FreshProbeOutcomeView::Success {
                version: version.deep_view(),
            },
            FreshProbeOutcome::ApiError { message } => FreshProbeOutcomeView::ApiError {
                message: message@,
            },
            FreshProbeOutcome::Timeout => FreshProbeOutcomeView::Timeout,
        }
    }
}

/// Which path the next probe cycle takes.
#[derive(Clone, Copy, Debug, PartialEq, Eq, Structural)]
pub enum ProbePlan {
    /// A connection is cached: probe it directly.
    UseCached,
    /// No usable connection is cached: resolve and connect afresh.
    FreshConnect,
}

/// The plan for a cycle, given whether a connection is cached.
pub open spec fn plan_spec(cached: bool) -> ProbePlan {
    if cached {
        ProbePlan::UseCached
    } else {
        ProbePlan::FreshConnect
    }
}

/// Whether a connection is cached after a probe over the cached one:
/// only a successful probe lets the handle live on.
pub open spec fn cache_after_cached_probe(outcome: CachedProbeOutcomeView) -> bool {
    outcome is Success
}

/// The status settled by a probe over the cached connection, if that probe
/// settled one: only success does; any failure defers to the fresh-connect
/// path of the same cycle.
pub open spec fn status_after_cached_probe(outcome: CachedProbeOutcomeView) -> Option<StatusView> {
    match outcome {
        CachedProbeOutcomeView::Success { version } => Some(
            StatusView::Running { version: version_or_unknown_spec(version) },
        ),
        _ => None,
    }
}

/// Whether a connection is cached after a fresh-connect cycle: only a
/// fully successful one leaves a live handle behind.
pub open spec fn cache_after_fresh(outcome: FreshProbeOutcomeView) -> bool {
    outcome is Success
}

/// The status the fresh-connect path settles, for every outcome: resolver
/// or connect failure means the daemon is unreachable; a probe failure on a
/// fresh connection means the daemon is reachable but malfunctioning.
pub open spec fn status_after_fresh(outcome: FreshProbeOutcomeView) -> StatusView {
    match outcome {
        FreshProbeOutcomeView::ConnectFailed => StatusView::Stopped,
        FreshProbeOutcomeView::ConnectTimeout => StatusView::Stopped,
        FreshProbeOutcomeView::Success { version } => StatusView::Running {
            version: version_or_unknown_spec(version),
        },
        FreshProbeOutcomeView::ApiError { message } => StatusView::Error {
            message: "Docker API error: "@ + message,
        },
        FreshProbeOutcomeView::Timeout => StatusView::Error {
            message: "Docker daemon unresponsive (timeout)"@,
        },
    }
}

/// Bookkeeping for the single optional connection slot. The handle itself
/// is owned by the loop outside this crate; the loop keeps its slot filled
/// exactly when this model says a connection is cached.
#[derive(Debug)]
pub struct ConnectionCache {
    cached: bool,
}

impl View for ConnectionCache {
    type V = bool;

    closed spec fn view(&self) -> bool {
        self.cached
    }
}

impl ConnectionCache {
    /// A fresh cache: no connection yet.
    pub fn new() -> (c: ConnectionCache)
        ensures
            !c@,
    {
        ConnectionCache { cached: false }
    }

    /// Whether a connection is currently cached.
    pub fn has_connection(&self) -> (r: bool)
        ensures
            r == self@,
    {
        self.cached
    }

    /// Which path the next probe cycle takes: the cached connection if one
    /// is live, a fresh resolve-and-connect otherwise.
    pub fn probe_plan(&self) -> (p: ProbePlan)
        ensures
            p == plan_spec(self@),
    {
        if self.cached {
            ProbePlan::UseCached
        } else {
            ProbePlan::FreshConnect
        }
    }

    /// Absorbs the outcome of a probe over the cached connection. Success
    /// settles a `Running` status and keeps the handle; any failure
    /// invalidates the cache and settles nothing, leaving the cycle to the
    /// fresh-connect path.
    pub fn note_cached_probe(&mut self, outcome: CachedProbeOutcome) -> (status: Option<
        DockerStatus,
    >)
        requires
            old(self)@,
        ensures
            final(self)@ == cache_after_cached_probe(outcome@),
            status matches Some(s) ==> Some(s@) == status_after_cached_probe(outcome@),
            (status is Some) == (status_after_cached_probe(outcome@) is Some),
    {
        match outcome {
            CachedProbeOutcome::Success { version } => {
                Some(DockerStatus::Running { version: version_or_unknown(version) })
            },
            CachedProbeOutcome::ApiError => {
                self.cached = false;
                None
            },
            CachedProbeOutcome::Timeout => {
                self.cached = false;
                None
            },
        }
    }

    /// Absorbs the outcome of a fresh-connect cycle and settles its status.
    /// Only a fully successful cycle leaves a connection cached.
    pub fn note_fresh_outcome(&mut self, outcome: FreshProbeOutcome) -> (status: DockerStatus)
        ensures
            final(self)@ == cache_after_fresh(outcome@),
            status@ == status_after_fresh(outcome@),
    {
        match outcome {
            FreshProbeOutcome::ConnectFailed => {
                self.cached = false;
                DockerStatus::Stopped
            },
            FreshProbeOutcome::ConnectTimeout => {
                self.cached = false;
                DockerStatus::Stopped
            },
            FreshProbeOutcome::Success { version } => {
                self.cached = true;
                DockerStatus::Running { version: version_or_unknown(version) }
            },
            FreshProbeOutcome::ApiError { message } => {
                self.cached = false;
                DockerStatus::Error {
                    message: "Docker API error: ".to_owned().concat(message.as_str()),
                }
            },
            FreshProbeOutcome::Timeout => {
                self.cached = false;
                DockerStatus::Error {
                    message: "Docker daemon unresponsive (timeout)".to_owned(),
                }
            },
        }
    }
}

/// Law: a failed or timed-out probe over a cached connection invalidates
/// the cache, so the very next probe cycle plans a fresh
/// resolve-and-connect rather than reusing the broken handle.
pub proof fn lemma_cache_fallback(outcome: CachedProbeOutcomeView)
    requires
        !(outcome is Success),
    ensures
        !cache_after_cached_probe(outcome),
        plan_spec(cache_after_cached_probe(outcome)) == ProbePlan::FreshConnect,
{
}

} // verus!
