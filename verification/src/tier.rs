//! Polling cadence tiers and the tuning constants of the monitor.
//!
//! The poller runs at one of three named cadences. Any status change forces
//! the tightest tier; sustained stability relaxes the cadence step by step.
//! The threshold values are product-tuning choices, kept as named constants.

use vstd::prelude::*;

verus! {

/// Tightest cadence, used right after a change or while a restart is suspected.
pub const QUICK_INTERVAL_MS: u64 = 800;

/// Standard cadence, used while a recent change is stabilizing. Also the
/// cadence a fresh monitor starts with.
pub const FAST_INTERVAL_MS: u64 = 1500;

/// Resting cadence once stability is established.
pub const NORMAL_INTERVAL_MS: u64 = 3000;

/// Consecutive unchanged probes needed before the cadence relaxes to `Fast`.
pub const QUICK_THRESHOLD: u32 = 3;

/// Consecutive unchanged probes needed before the cadence relaxes to `Normal`.
pub const FAST_THRESHOLD: u32 = 5;

/// Span after the last change during which a suspected restart keeps the
/// cadence at `Quick`, and past which the suspicion may be cleared.
pub const RESTART_DETECTION_WINDOW_MS: u64 = 12000;

/// Bound on each probe attempt made by the polling loop.
pub const PROBE_TIMEOUT_MS: u64 = 2000;

/// Bound on an externally triggered one-shot health check.
pub const ONESHOT_PROBE_TIMEOUT_MS: u64 = 10000;

/// One of the three named polling cadences.
#[derive(Clone, Copy, Debug, PartialEq, Eq, Structural)]
pub enum Tier {
    /// Poll every [`QUICK_INTERVAL_MS`].
    Quick,
    /// Poll every [`FAST_INTERVAL_MS`].
    Fast,
    /// Poll every [`NORMAL_INTERVAL_MS`].
    Normal,
}

impl Tier {
    /// Timer period of this tier, in milliseconds.
    pub open spec fn interval_ms_spec(self) -> u64 {
        match self {
            Tier::Quick => QUICK_INTERVAL_MS,
            Tier::Fast => FAST_INTERVAL_MS,
            Tier::Normal => NORMAL_INTERVAL_MS,
        }
    }

    /// Timer period of this tier, in milliseconds.
    #[verifier::when_used_as_spec(interval_ms_spec)]
    pub fn interval_ms(self) -> (r: u64)
        ensures
            r == self.interval_ms_spec(),
    {
        match self {
            Tier::Quick => QUICK_INTERVAL_MS,
            Tier::Fast => FAST_INTERVAL_MS,
            Tier::Normal => NORMAL_INTERVAL_MS,
        }
    }
}

/// The cadence the poller should run at after an unchanged probe, decided
/// from the restart suspicion, the time since the last change and the
/// freshly incremented count of consecutive unchanged probes.
///
/// A suspected restart inside its detection window keeps the cadence tight;
/// otherwise sustained stability relaxes it in two steps.
pub open spec fn desired_tier_spec(restart_suspected: bool, elapsed_ms: int, stable_count: u32) -> Tier {
    if restart_suspected && elapsed_ms < RESTART_DETECTION_WINDOW_MS {
        Tier::Quick
    } else if stable_count >= FAST_THRESHOLD {
        Tier::Normal
    } else if stable_count >= QUICK_THRESHOLD {
        Tier::Fast
    } else {
        Tier::Quick
    }
}

/// Computes [`desired_tier_spec`].
pub fn desired_tier(restart_suspected: bool, elapsed_ms: u64, stable_count: u32) -> (t: Tier)
    ensures
        t == desired_tier_spec(restart_suspected, elapsed_ms as int, stable_count),
{
    if restart_suspected && elapsed_ms < RESTART_DETECTION_WINDOW_MS {
        Tier::Quick
    } else if stable_count >= FAST_THRESHOLD {
        Tier::Normal
    } else if stable_count >= QUICK_THRESHOLD {
        Tier::Fast
    } else {
        Tier::Quick
    }
}

} // verus!
