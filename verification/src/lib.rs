//! Adaptive daemon-status monitor.
//!
//! A background poller continuously determines whether a local
//! container-runtime daemon is reachable and healthy, classifies each probe
//! into a small status model, detects status changes and restart patterns,
//! adjusts its own polling cadence based on recent stability, and reports
//! each transition to an observer exactly once.
//!
//! This crate holds the verified decision core: the status model, the
//! bounded observation history, the restart-pattern detector, the adaptive
//! polling state machine, the connection-cache bookkeeping and the endpoint
//! resolution rules. The unverified shell around it performs the actual
//! daemon probes and drives the timer loop, feeding each probe outcome into
//! [`monitor::DockerMonitor::tick`].

pub mod cache;
pub mod error;
pub mod history;
pub mod laws;
pub mod monitor;
pub mod resolver;
pub mod restart;
pub mod status;
pub mod tier;
