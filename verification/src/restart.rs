//! Restart-pattern detection over the observation history.
//!
//! A genuine daemon restart shows up as a brief outage bracketed by running
//! states. The detector scans the recent history for a
//! `Running -> Stopped -> Running` window whose two gaps are short enough,
//! distinguishing a restart from a sustained outage or from jitter.

use vstd::prelude::*;

use crate::history::EntryView;
use crate::history::HistoryEntry;

verus! {

/// Only entries younger than this are considered by the detector.
pub const RELEVANCE_WINDOW_MS: u64 = 20000;

/// At most this many relevant entries are scanned.
pub const RELEVANT_CAP: usize = 5;

/// Fewer relevant entries than this cannot show a pattern.
pub const MIN_PATTERN_ENTRIES: usize = 3;

/// A `Running -> Stopped` gap must stay below this to look like a restart.
pub const RUN_STOP_GAP_MS: u64 = 8000;

/// A `Stopped -> Running` gap must stay below this to look like a restart.
pub const STOP_RUN_GAP_MS: u64 = 15000;

/// Whether `e` is young enough at time `now_ms` to interest the detector.
pub open spec fn is_relevant(e: EntryView, now_ms: u64) -> bool {
    now_ms - e.at_ms < RELEVANCE_WINDOW_MS
}

/// The relevant entries, in order: the first `cap` entries of `h` that are
/// young enough at `now_ms`.
pub open spec fn relevant_capped(h: Seq<EntryView>, now_ms: u64, cap: nat) -> Seq<EntryView>
    decreases h.len(),
{
    if h.len() == 0 || cap == 0 {
        Seq::empty()
    } else if is_relevant(h[0], now_ms) {
        seq![h[0]] + relevant_capped(h.drop_first(), now_ms, (cap - 1) as nat)
    } else {
        relevant_capped(h.drop_first(), now_ms, cap)
    }
}

/// A brief outage bracketed by running states: `a` running, `b` stopped,
/// `c` running again, with both gaps short enough.
pub open spec fn restart_window(a: EntryView, b: EntryView, c: EntryView) -> bool {
    &&& a.status is Running
    &&& b.status is Stopped
    &&& c.status is Running
    &&& b.at_ms - a.at_ms < RUN_STOP_GAP_MS
    &&& c.at_ms - b.at_ms < STOP_RUN_GAP_MS
}

/// Some three consecutive entries of `r` form a restart window.
pub open spec fn has_restart_window(r: Seq<EntryView>) -> bool {
    exists|i: int| 0 <= i && i + 2 < r.len() && #[trigger] restart_window(r[i], r[i + 1], r[i + 2])
}

/// Whether the history at time `now_ms` shows a suspected restart: at least
/// [`MIN_PATTERN_ENTRIES`] relevant entries, three consecutive ones of which
/// form a restart window.
pub open spec fn detect_restart_spec(h: Seq<EntryView>, now_ms: u64) -> bool {
    let r = relevant_capped(h, now_ms, RELEVANT_CAP as nat);
    r.len() >= MIN_PATTERN_ENTRIES && has_restart_window(r)
}

/// The entries of `h` selected by the index list `idx`.
pub open spec fn entries_at(idx: Seq<usize>, h: Seq<EntryView>) -> Seq<EntryView> {
    idx.map_values(|j: usize| h[j as int])
}

/// Whether `later - earlier < bound`, where a clock that appears to have
/// gone backwards counts as a zero gap.
fn gap_below(earlier: u64, later: u64, bound: u64) -> (r: bool)
    ensures
        r == (later - earlier < bound),
{
    if later >= earlier {
        later - earlier < bound
    } else {
        true
    }
}

/// Whether the three entries form a restart window.
fn window_matches(a: &HistoryEntry, b: &HistoryEntry, c: &HistoryEntry) -> (r: bool)
    ensures
        r == restart_window(a@, b@, c@),
{
    a.status.is_running() && b.status.is_stopped() && c.status.is_running()
        && gap_below(a.at_ms, b.at_ms, RUN_STOP_GAP_MS)
        && gap_below(b.at_ms, c.at_ms, STOP_RUN_GAP_MS)
}

/// Computes [`detect_restart_spec`] over the history at time `now_ms`.
pub fn detect_restart(history: &Vec<HistoryEntry>, now_ms: u64) -> (r: bool)
    ensures
        r == detect_restart_spec(history.deep_view(), now_ms),
{
    let ghost h = history.deep_view();
    let ghost full = relevant_capped(h, now_ms, RELEVANT_CAP as nat);

    let mut rel_idx: Vec<usize> = Vec::new();
    let mut i: usize = 0;
    proof {
        assert(h.skip(0) =~= h);
        assert(entries_at(rel_idx@, h) + relevant_capped(h, now_ms, RELEVANT_CAP as nat) =~= full);
    }
    while i < history.len() && rel_idx.len() < RELEVANT_CAP
        invariant
            i <= history.len(),
            h == history.deep_view(),
            full == relevant_capped(h, now_ms, RELEVANT_CAP as nat),
            rel_idx@.len() <= RELEVANT_CAP,
            forall|k: int| 0 <= k < rel_idx@.len() ==> rel_idx@[k] < i,
            entries_at(rel_idx@, h) + relevant_capped(
                h.skip(i as int),
                now_ms,
                (RELEVANT_CAP - rel_idx@.len()) as nat,
            ) == full,
        decreases history.len() - i,
    {
        let ghost rel0 = rel_idx@;
        let ghost cap0 = (RELEVANT_CAP - rel_idx@.len()) as nat;
        proof {
            assert(h.skip(i as int).len() > 0);
            assert(h.skip(i as int)[0] == h[i as int]);
            assert(h.skip(i as int).drop_first() =~= h.skip(i as int + 1));
        }
        let entry = &history[i];
        assert(entry@ == h[i as int]);
        if gap_below(entry.at_ms, now_ms, RELEVANCE_WINDOW_MS) {
            rel_idx.push(i);
            proof {
                assert(entries_at(rel_idx@, h) =~= entries_at(rel0, h) + seq![h[i as int]]);
                assert((entries_at(rel0, h) + seq![h[i as int]]) + relevant_capped(
                    h.skip(i as int + 1),
                    now_ms,
                    (cap0 - 1) as nat,
                ) =~= entries_at(rel0, h) + (seq![h[i as int]] + relevant_capped(
                    h.skip(i as int + 1),
                    now_ms,
                    (cap0 - 1) as nat,
                )));
            }
        }
        i += 1;
    }
    proof {
        if i == history.len() {
            assert(h.skip(i as int) =~= Seq::empty());
        }
        assert(relevant_capped(
            h.skip(i as int),
            now_ms,
            (RELEVANT_CAP - rel_idx@.len()) as nat,
        ) =~= Seq::empty());
        assert(entries_at(rel_idx@, h) + Seq::empty() =~= entries_at(rel_idx@, h));
        assert(entries_at(rel_idx@, h) == full);
    }

    let n = rel_idx.len();
    if n < MIN_PATTERN_ENTRIES {
        return false;
    }

    let mut j: usize = 0;
    while j + 2 < n
        invariant
            n == rel_idx@.len(),
            n <= RELEVANT_CAP,
            j <= n,
            h == history.deep_view(),
            full == relevant_capped(h, now_ms, RELEVANT_CAP as nat),
            entries_at(rel_idx@, h) == full,
            forall|k: int| 0 <= k < rel_idx@.len() ==> rel_idx@[k] < history@.len(),
            forall|k: int| 0 <= k < j ==> !(#[trigger] restart_window(full[k], full[k + 1], full[k + 2])),
        decreases n - j,
    {
        let a = &history[rel_idx[j]];
        let b = &history[rel_idx[j + 1]];
        let c = &history[rel_idx[j + 2]];
        proof {
            assert(a@ == full[j as int]);
            assert(b@ == full[j as int + 1]);
            assert(c@ == full[j as int + 2]);
        }
        if window_matches(a, b, c) {
            proof {
                assert(restart_window(full[j as int], full[j as int + 1], full[j as int + 2]));
            }
            return true;
        }
        j += 1;
    }
    proof {
        assert(!has_restart_window(full));
    }
    false
}

} // verus!
