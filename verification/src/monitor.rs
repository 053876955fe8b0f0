//! The adaptive poller: the monitor's state machine.
//!
//! A single background task owns the polling loop. On every timer tick it
//! probes the daemon (outside this crate), classifies the outcome into a
//! [`DockerStatus`], and feeds it into [`DockerMonitor::tick`], which is the
//! whole per-tick decision: detect a transition, update the bounded history,
//! run the restart detector, adjust the polling cadence, and say whether the
//! observer must be notified. Cancellation is cooperative and one-shot: a
//! cancelled monitor ignores further ticks, so its published status stays
//! frozen at the last observed value.

use vstd::prelude::*;

use crate::history::EntryView;
use crate::history::HistoryEntry;
use crate::history::MAX_HISTORY_SIZE;
use crate::history::chronological;
use crate::history::lemma_push_bounded;
use crate::history::push_bounded;
use crate::history::push_bounded_spec;
use crate::restart::detect_restart;
use crate::restart::detect_restart_spec;
use crate::status::DockerStatus;
use crate::status::StatusView;
use crate::tier::FAST_THRESHOLD;
use crate::tier::RESTART_DETECTION_WINDOW_MS;
use crate::tier::Tier;
use crate::tier::desired_tier;
use crate::tier::desired_tier_spec;

verus! {

/// Mathematical model of a [`DockerMonitor`].
#[verifier::ext_equal]
pub struct MonitorModel {
    /// Last published status.
    pub current_status: StatusView,
    /// Active polling cadence.
    pub tier: Tier,
    /// Consecutive probes that returned the same status as `current_status`.
    pub stable_count: u32,
    /// When the last transition was observed.
    pub last_change_at_ms: u64,
    /// Whether a recent restart pattern was detected.
    pub restart_suspected: bool,
    /// The bounded transition history.
    pub history: Seq<EntryView>,
    /// Whether the monitor was cancelled.
    pub cancelled: bool,
}

impl MonitorModel {
    /// The internal invariant: the history is bounded and chronological,
    /// and nothing in it postdates the last recorded change.
    pub open spec fn wf(self) -> bool {
        &&& self.history.len() <= MAX_HISTORY_SIZE
        &&& chronological(self.history)
        &&& self.history.len() > 0 ==> self.history.last().at_ms <= self.last_change_at_ms
    }
}

/// The state of a freshly constructed monitor: `Stopped`, fast cadence,
/// empty history, not cancelled.
pub open spec fn initial_model() -> MonitorModel {
    MonitorModel {
        current_status: StatusView::Stopped,
        tier: Tier::Fast,
        stable_count: 0,
        last_change_at_ms: 0,
        restart_suspected: false,
        history: Seq::empty(),
        cancelled: false,
    }
}

/// The state after a tick whose status differs from the published one:
/// record the transition, rerun the restart detector on the new history,
/// reset the stability counter, publish the new status and force the
/// tightest cadence.
pub open spec fn changed_model(m: MonitorModel, s: StatusView, now_ms: u64) -> MonitorModel {
    let h2 = push_bounded_spec(m.history, EntryView { status: s, at_ms: now_ms });
    MonitorModel {
        current_status: s,
        tier: Tier::Quick,
        stable_count: 0,
        last_change_at_ms: now_ms,
        restart_suspected: detect_restart_spec(h2, now_ms),
        history: h2,
        cancelled: m.cancelled,
    }
}

/// The state after a tick whose status equals the published one: bump the
/// stability counter, pick the cadence the stability now earns, and clear a
/// stale restart suspicion once the detection window has long passed.
pub open spec fn stable_model(m: MonitorModel, now_ms: u64) -> MonitorModel {
    let bumped: u32 = if m.stable_count < u32::MAX {
        (m.stable_count + 1) as u32
    } else {
        u32::MAX
    };
    let elapsed: int = now_ms - m.last_change_at_ms;
    let cleared = elapsed > RESTART_DETECTION_WINDOW_MS && bumped > FAST_THRESHOLD;
    MonitorModel {
        current_status: m.current_status,
        tier: desired_tier_spec(m.restart_suspected, elapsed, bumped),
        stable_count: bumped,
        last_change_at_ms: m.last_change_at_ms,
        restart_suspected: if cleared {
            false
        } else {
            m.restart_suspected
        },
        history: m.history,
        cancelled: m.cancelled,
    }
}

/// One tick of the poller on probe outcome `s` at time `now_ms`: the next
/// state, and whether the observer is notified. A cancelled monitor is
/// frozen: no state change, no notification.
pub open spec fn tick_model(m: MonitorModel, s: StatusView, now_ms: u64) -> (MonitorModel, bool) {
    if m.cancelled {
        (m, false)
    } else if s != m.current_status {
        (changed_model(m, s, now_ms), true)
    } else {
        (stable_model(m, now_ms), false)
    }
}

/// The same monitor, cancelled. Cancellation touches nothing else, and is
/// idempotent because this is its own fixed point.
pub open spec fn cancel_model(m: MonitorModel) -> MonitorModel {
    MonitorModel { cancelled: true, ..m }
}

/// One probe outcome handed to the poller: the classified status and when
/// it was observed.
pub struct ProbeObs {
    /// The classified status of the probe.
    pub status: StatusView,
    /// When it was observed.
    pub at_ms: u64,
}

/// The monitor state after feeding a whole sequence of probe outcomes.
pub open spec fn run_model(m: MonitorModel, obs: Seq<ProbeObs>) -> MonitorModel
    decreases obs.len(),
{
    if obs.len() == 0 {
        m
    } else {
        run_model(tick_model(m, obs[0].status, obs[0].at_ms).0, obs.drop_first())
    }
}

/// The notification sent (or not) at each tick of a run, in order.
pub open spec fn run_notifications(m: MonitorModel, obs: Seq<ProbeObs>) -> Seq<bool>
    decreases obs.len(),
{
    if obs.len() == 0 {
        Seq::empty()
    } else {
        seq![tick_model(m, obs[0].status, obs[0].at_ms).1] + run_notifications(
            tick_model(m, obs[0].status, obs[0].at_ms).0,
            obs.drop_first(),
        )
    }
}

/// The adaptive daemon-status monitor.
///
/// Owns the published status, the active cadence, the stability counters
/// and the bounded transition history. The polling loop itself lives
/// outside this crate: it probes the daemon, calls [`DockerMonitor::tick`]
/// with each classified outcome, delivers a notification when `tick` says
/// so, and reprograms its timer to [`DockerMonitor::current_interval_ms`].
#[derive(Debug)]
pub struct DockerMonitor {
    current_status: DockerStatus,
    tier: Tier,
    stable_count: u32,
    last_change_at_ms: u64,
    restart_suspected: bool,
    history: Vec<HistoryEntry>,
    cancelled: bool,
}

impl View for DockerMonitor {
    type V = MonitorModel;

    closed spec fn view(&self) -> MonitorModel {
        MonitorModel {
            current_status: self.current_status@,
            tier: self.tier,
            stable_count: self.stable_count,
            last_change_at_ms: self.last_change_at_ms,
            restart_suspected: self.restart_suspected,
            history: self.history.deep_view(),
            cancelled: self.cancelled,
        }
    }
}

impl DockerMonitor {
    /// A fresh monitor: it reports `Stopped` before any tick, starts at the
    /// fast cadence, and holds no history.
    pub fn new() -> (m: DockerMonitor)
        ensures
            m@ == initial_model(),
            m@.wf(),
            m@.current_status is Stopped,
    {
        let m = DockerMonitor {
            current_status: DockerStatus::Stopped,
            tier: Tier::Fast,
            stable_count: 0,
            last_change_at_ms: 0,
            restart_suspected: false,
            history: Vec::new(),
            cancelled: false,
        };
        proof {
            assert(m@ =~= initial_model());
        }
        m
    }

    /// Snapshot of the last published status. After cancellation this stays
    /// frozen at the last observed value.
    pub fn get_current_status(&self) -> (r: DockerStatus)
        ensures
            r@ == self@.current_status,
    {
        self.current_status.duplicate()
    }

    /// The active polling cadence.
    pub fn current_tier(&self) -> (t: Tier)
        ensures
            t == self@.tier,
    {
        self.tier
    }

    /// The active timer period, in milliseconds.
    pub fn current_interval_ms(&self) -> (r: u64)
        ensures
            r == self@.tier.interval_ms_spec(),
    {
        self.tier.interval_ms()
    }

    /// How many consecutive probes returned the published status.
    pub fn stable_count(&self) -> (r: u32)
        ensures
            r == self@.stable_count,
    {
        self.stable_count
    }

    /// When the last transition was observed.
    pub fn last_change_at_ms(&self) -> (r: u64)
        ensures
            r == self@.last_change_at_ms,
    {
        self.last_change_at_ms
    }

    /// Whether a recent restart pattern is suspected.
    pub fn is_restart_suspected(&self) -> (r: bool)
        ensures
            r == self@.restart_suspected,
    {
        self.restart_suspected
    }

    /// Whether the monitor was cancelled.
    pub fn is_cancelled(&self) -> (r: bool)
        ensures
            r == self@.cancelled,
    {
        self.cancelled
    }

    /// How many transitions the history currently holds.
    pub fn history_len(&self) -> (r: usize)
        ensures
            r == self@.history.len(),
    {
        self.history.len()
    }

    /// A copy of the history entry at `i` (`0` is the oldest kept).
    pub fn history_at(&self, i: usize) -> (e: HistoryEntry)
        requires
            i < self@.history.len(),
        ensures
            e@ == self@.history[i as int],
    {
        self.history[i].duplicate()
    }

    /// Signals shutdown. Safe to call any number of times: each call leaves
    /// the monitor in the same cancelled state and changes nothing else, so
    /// the published status stays frozen.
    pub fn cancel(&mut self)
        ensures
            final(self)@ == cancel_model(old(self)@),
    {
        self.cancelled = true;
        proof {
            assert(self@ =~= cancel_model(old(self)@));
        }
    }

    /// One tick of the poller: feed the classified outcome of a probe,
    /// observed at `now_ms` on a monotonic clock. Returns whether the
    /// observer must be notified — exactly once per transition, never on an
    /// unchanged tick, never after cancellation.
    pub fn tick(&mut self, new_status: DockerStatus, now_ms: u64) -> (notify: bool)
        requires
            old(self)@.wf(),
            old(self)@.last_change_at_ms <= now_ms,
        ensures
            final(self)@.wf(),
            final(self)@ == tick_model(old(self)@, new_status@, now_ms).0,
            notify == tick_model(old(self)@, new_status@, now_ms).1,
            notify == (!old(self)@.cancelled && new_status@ != old(self)@.current_status),
    {
        if self.cancelled {
            return false;
        }
        let changed = !(new_status == self.current_status);
        if changed {
            let entry = HistoryEntry { status: new_status.duplicate(), at_ms: now_ms };
            proof {
                lemma_push_bounded(old(self)@.history, entry@);
            }
            push_bounded(&mut self.history, entry);
            self.restart_suspected = detect_restart(&self.history, now_ms);
            self.stable_count = 0;
            self.last_change_at_ms = now_ms;
            self.current_status = new_status;
            self.tier = Tier::Quick;
            proof {
                assert(self@ =~= changed_model(old(self)@, new_status@, now_ms));
            }
            true
        } else {
            let bumped: u32 = if self.stable_count < u32::MAX {
                self.stable_count + 1
            } else {
                u32::MAX
            };
            self.stable_count = bumped;
            let elapsed = now_ms - self.last_change_at_ms;
            self.tier = desired_tier(self.restart_suspected, elapsed, bumped);
            if elapsed > RESTART_DETECTION_WINDOW_MS && bumped > FAST_THRESHOLD {
                self.restart_suspected = false;
            }
            proof {
                assert(self@ =~= stable_model(old(self)@, now_ms));
            }
            false
        }
    }
}

} // verus!
