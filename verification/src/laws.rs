//! The laws of the monitor, proved over its model.
//!
//! Each proof function here states a property of the state machine for
//! every input it allows, over the same model that the executable
//! functions' contracts are written in.

use vstd::prelude::*;

use crate::history::MAX_HISTORY_SIZE;
use crate::history::chronological;
use crate::history::lemma_push_bounded;
use crate::history::push_bounded_spec;
use crate::history::EntryView;
use crate::monitor::MonitorModel;
use crate::monitor::ProbeObs;
use crate::monitor::cancel_model;
use crate::monitor::run_model;
use crate::monitor::run_notifications;
use crate::monitor::tick_model;
use crate::status::StatusView;
use crate::tier::FAST_THRESHOLD;
use crate::tier::Tier;

verus! {

/// Law: over any sequence of probe outcomes, the observer is notified at
/// exactly the indices whose status differs from the previously published
/// one — the initial status for the first probe, the preceding outcome for
/// every later one — and never on a repeat.
pub proof fn lemma_change_triggers_notify(m: MonitorModel, obs: Seq<ProbeObs>)
    requires
        !m.cancelled,
    ensures
        run_notifications(m, obs).len() == obs.len(),
        forall|i: int|
            0 <= i < obs.len() ==> run_notifications(m, obs)[i] == (obs[i].status != (if i == 0 {
                m.current_status
            } else {
                obs[i - 1].status
            })),
    decreases obs.len(),
{
    if obs.len() > 0 {
        let step = tick_model(m, obs[0].status, obs[0].at_ms);
        let m1 = step.0;
        let rest = obs.drop_first();
        assert(m1.current_status == obs[0].status);
        assert(!m1.cancelled);
        lemma_change_triggers_notify(m1, rest);
        let notes = run_notifications(m, obs);
        assert forall|i: int|
            0 <= i < obs.len() implies notes[i] == (obs[i].status != (if i == 0 {
            m.current_status
        } else {
            obs[i - 1].status
        })) by {
            if i == 0 {
                assert(notes[0] == step.1);
            } else {
                assert(notes[i] == run_notifications(m1, rest)[i - 1]);
                assert(rest[i - 1] == obs[i]);
                if i == 1 {
                    assert(run_notifications(m1, rest)[0] == (rest[0].status != m1.current_status));
                } else {
                    assert(rest[i - 2] == obs[i - 1]);
                }
            }
        }
    }
}

/// Law: a tick preserves the monitor's invariant — in particular the
/// history never exceeds its bound and stays in chronological order — and
/// on a transition the history becomes exactly the previous entries,
/// oldest-evicted past the bound, with the new transition last.
pub proof fn lemma_history_bound(m: MonitorModel, s: StatusView, now_ms: u64)
    requires
        m.wf(),
        m.last_change_at_ms <= now_ms,
    ensures
        tick_model(m, s, now_ms).0.wf(),
        tick_model(m, s, now_ms).0.history.len() <= MAX_HISTORY_SIZE,
        chronological(tick_model(m, s, now_ms).0.history),
        (!m.cancelled && s != m.current_status) ==> {
            let h2 = tick_model(m, s, now_ms).0.history;
            &&& h2 == push_bounded_spec(m.history, EntryView { status: s, at_ms: now_ms })
            &&& h2.len() > 0
            &&& h2.last() == EntryView { status: s, at_ms: now_ms }
            &&& m.history.len() < MAX_HISTORY_SIZE ==> h2 == m.history.push(
                EntryView { status: s, at_ms: now_ms },
            )
            &&& m.history.len() == MAX_HISTORY_SIZE ==> h2 == m.history.push(
                EntryView { status: s, at_ms: now_ms },
            ).drop_first()
        },
{
    if !m.cancelled && s != m.current_status {
        let e = EntryView { status: s, at_ms: now_ms };
        assert(forall|i: int| 0 <= i < m.history.len() ==> m.history[i].at_ms <= e.at_ms);
        lemma_push_bounded(m.history, e);
    }
}

/// Law: after any whole run of probe outcomes on a monotone clock, the
/// monitor's invariant still holds: the history never exceeds its bound
/// and stays in chronological order.
pub proof fn lemma_run_history_bound(m: MonitorModel, obs: Seq<ProbeObs>)
    requires
        m.wf(),
        obs.len() > 0 ==> m.last_change_at_ms <= obs[0].at_ms,
        forall|i: int| 0 <= i < obs.len() - 1 ==> #[trigger] obs[i].at_ms <= obs[i + 1].at_ms,
    ensures
        run_model(m, obs).wf(),
        run_model(m, obs).history.len() <= MAX_HISTORY_SIZE,
        chronological(run_model(m, obs).history),
    decreases obs.len(),
{
    if obs.len() > 0 {
        let m1 = tick_model(m, obs[0].status, obs[0].at_ms).0;
        let rest = obs.drop_first();
        lemma_history_bound(m, obs[0].status, obs[0].at_ms);
        assert(m1.last_change_at_ms <= obs[0].at_ms || m1.last_change_at_ms
            == m.last_change_at_ms);
        assert(forall|i: int| 0 <= i < rest.len() - 1 ==> #[trigger] rest[i].at_ms <= rest[i + 1].at_ms)
            by {
            assert(forall|i: int| 0 <= i < rest.len() ==> rest[i] == obs[i + 1]);
        }
        lemma_run_history_bound(m1, rest);
    }
}

/// Law: unchanged ticks preserve the published status and the absence of a
/// restart suspicion, and grow the stability counter; once enough of them
/// have accumulated, the cadence rests at `Normal`.
pub proof fn lemma_stable_run(m: MonitorModel, obs: Seq<ProbeObs>)
    requires
        !m.cancelled,
        !m.restart_suspected,
        forall|i: int| 0 <= i < obs.len() ==> obs[i].status == m.current_status,
    ensures
        run_model(m, obs).current_status == m.current_status,
        !run_model(m, obs).cancelled,
        !run_model(m, obs).restart_suspected,
        run_model(m, obs).stable_count >= vstd::math::min(
            m.stable_count + obs.len(),
            FAST_THRESHOLD as int,
        ),
        (obs.len() >= 1 && m.stable_count + obs.len() >= FAST_THRESHOLD) ==> run_model(
            m,
            obs,
        ).tier == Tier::Normal,
    decreases obs.len(),
{
    if obs.len() > 0 {
        let step = tick_model(m, obs[0].status, obs[0].at_ms);
        let m1 = step.0;
        let rest = obs.drop_first();
        assert(m1.current_status == m.current_status);
        assert(!m1.restart_suspected);
        assert(m1.stable_count >= vstd::math::min(m.stable_count + 1, FAST_THRESHOLD as int));
        assert(forall|i: int| 0 <= i < rest.len() ==> rest[i].status == m1.current_status);
        lemma_stable_run(m1, rest);
        if rest.len() == 0 {
            assert(run_model(m, obs) == m1);
        }
    }
}

/// Law: after five consecutive unchanged ticks with no suspected restart,
/// the active cadence is `Normal`.
pub proof fn lemma_tier_relaxation(m: MonitorModel, obs: Seq<ProbeObs>)
    requires
        !m.cancelled,
        !m.restart_suspected,
        obs.len() >= FAST_THRESHOLD,
        forall|i: int| 0 <= i < obs.len() ==> obs[i].status == m.current_status,
    ensures
        run_model(m, obs).tier == Tier::Normal,
{
    lemma_stable_run(m, obs);
}

/// Law: any transition forces the cadence back to `Quick` on that very
/// tick, and notifies the observer.
pub proof fn lemma_change_tightens(m: MonitorModel, s: StatusView, now_ms: u64)
    requires
        !m.cancelled,
        s != m.current_status,
    ensures
        tick_model(m, s, now_ms).0.tier == Tier::Quick,
        tick_model(m, s, now_ms).1,
{
}

/// Law: a cancelled monitor is frozen — a tick changes nothing and never
/// notifies, so the published status keeps its last value.
pub proof fn lemma_cancelled_frozen(m: MonitorModel, s: StatusView, now_ms: u64)
    requires
        m.cancelled,
    ensures
        tick_model(m, s, now_ms).0 == m,
        !tick_model(m, s, now_ms).1,
{
}

/// Law: a cancelled monitor stays frozen under any whole run of probe
/// outcomes, and none of them notifies.
pub proof fn lemma_cancelled_run_frozen(m: MonitorModel, obs: Seq<ProbeObs>)
    requires
        m.cancelled,
    ensures
        run_model(m, obs) == m,
        forall|i: int| 0 <= i < obs.len() ==> !run_notifications(m, obs)[i],
        run_notifications(m, obs).len() == obs.len(),
    decreases obs.len(),
{
    if obs.len() > 0 {
        lemma_cancelled_run_frozen(m, obs.drop_first());
    }
}

/// Law: cancelling twice produces the same state as cancelling once.
pub proof fn lemma_cancel_idempotent(m: MonitorModel)
    ensures
        cancel_model(cancel_model(m)) == cancel_model(m),
{
}

} // verus!
