//! The observation history: a bounded, chronological record of transitions.
//!
//! On every changed observation the poller appends `(status, time)` here;
//! the oldest entry is evicted once the fixed bound is exceeded, so memory
//! stays bounded while the most recent transitions remain available to the
//! restart-pattern detector.

use vstd::prelude::*;

use crate::status::DockerStatus;
use crate::status::StatusView;

verus! {

/// Bound on the number of history entries kept.
pub const MAX_HISTORY_SIZE: usize = 6;

/// One recorded transition: the status observed and when it was observed,
/// in milliseconds of a monotonic clock.
#[derive(Clone, Debug)]
pub struct HistoryEntry {
    /// The status that was newly observed.
    pub status: DockerStatus,
    /// When it was observed.
    pub at_ms: u64,
}

/// Mathematical model of a [`HistoryEntry`].
pub struct EntryView {
    /// Model of the observed status.
    pub status: StatusView,
    /// When it was observed.
    pub at_ms: u64,
}

impl View for HistoryEntry {
    type V = EntryView;

    open spec fn view(&self) -> EntryView {
        EntryView { status: self.status@, at_ms: self.at_ms }
    }
}

impl DeepView for HistoryEntry {
    type V = EntryView;

    open spec fn deep_view(&self) -> EntryView {
        self.view()
    }
}

impl HistoryEntry {
    /// A copy with the same model.
    pub fn duplicate(&self) -> (r: HistoryEntry)
        ensures
            r@ == self@,
    {
        HistoryEntry { status: self.status.duplicate(), at_ms: self.at_ms }
    }
}

/// Entries stand in observation order: timestamps never decrease.
pub open spec fn chronological(h: Seq<EntryView>) -> bool {
    forall|i: int, j: int| 0 <= i <= j < h.len() ==> h[i].at_ms <= h[j].at_ms
}

/// The history after appending `e`: the new entry goes last, and the oldest
/// entry is evicted if the bound would otherwise be exceeded.
pub open spec fn push_bounded_spec(h: Seq<EntryView>, e: EntryView) -> Seq<EntryView> {
    let grown = h.push(e);
    if grown.len() > MAX_HISTORY_SIZE {
        grown.drop_first()
    } else {
        grown
    }
}

/// Appending to a bounded, chronological history with a fresh-enough entry
/// keeps it bounded and chronological and puts the new entry last.
pub proof fn lemma_push_bounded(h: Seq<EntryView>, e: EntryView)
    requires
        chronological(h),
        h.len() <= MAX_HISTORY_SIZE,
        forall|i: int| 0 <= i < h.len() ==> h[i].at_ms <= e.at_ms,
    ensures
        chronological(push_bounded_spec(h, e)),
        push_bounded_spec(h, e).len() <= MAX_HISTORY_SIZE,
        0 < push_bounded_spec(h, e).len(),
        push_bounded_spec(h, e).last() == e,
        h.len() < MAX_HISTORY_SIZE ==> push_bounded_spec(h, e) == h.push(e),
        h.len() == MAX_HISTORY_SIZE ==> push_bounded_spec(h, e) == h.push(e).drop_first(),
{
}

/// Appends `entry`, evicting the oldest entry past the bound.
pub fn push_bounded(history: &mut Vec<HistoryEntry>, entry: HistoryEntry)
    requires
        old(history)@.len() <= MAX_HISTORY_SIZE,
    ensures
        final(history).deep_view() == push_bounded_spec(old(history).deep_view(), entry@),
{
    let ghost h0 = history.deep_view();
    let ghost e = entry@;
    history.push(entry);
    assert(history.deep_view() =~= h0.push(e));
    if history.len() > MAX_HISTORY_SIZE {
        let ghost grown = history.deep_view();
        history.remove(0);
        assert(history.deep_view() =~= grown.drop_first());
    }
}

} // verus!
