use vstd::prelude::*;

use crate::bucket::Bucket;
use crate::frame::{occurrences, WindowView};

verus! {

/// Counting events of each bucket in two parts adds up to counting them in
/// the whole.
pub proof fn lemma_occurrences_concat(s1: Seq<Bucket>, s2: Seq<Bucket>, b: Bucket)
    ensures
        occurrences(s1 + s2, b) == occurrences(s1, b) + occurrences(s2, b),
    decreases s2.len(),
{
    if s2.len() == 0 {
        assert(s1 + s2 =~= s1);
    } else {
        assert((s1 + s2).drop_last() =~= s1 + s2.drop_last());
        assert((s1 + s2).last() == s2.last());
        lemma_occurrences_concat(s1, s2.drop_last(), b);
    }
}

/// After a sequence of events with no flush in between, each counter has grown
/// by exactly the number of events classified into its bucket, and the epoch
/// minute is unchanged: `Ignored` events change nothing.
pub proof fn lemma_counts_match_events(w: WindowView, events: Seq<Bucket>)
    ensures
        w.recorded_all(events) == (WindowView {
            m: w.m,
            lc: w.lc + occurrences(events, Bucket::LeftClick),
            rc: w.rc + occurrences(events, Bucket::RightClick),
            mc: w.mc + occurrences(events, Bucket::MiddleClick),
            ks: w.ks + occurrences(events, Bucket::Keystroke),
            mm: w.mm + occurrences(events, Bucket::MouseMove),
        }),
    decreases events.len(),
{
    if events.len() > 0 {
        lemma_counts_match_events(w, events.drop_last());
    }
}

/// Once a successful save has reset the window at minute `reset_at`, the next
/// snapshot, taken at minute `now` with no events in between, has every
/// counter at zero and the epoch minute `now`.
pub proof fn lemma_snapshot_after_reset_is_clear(reset_at: int, now: int)
    ensures
        WindowView::fresh(reset_at) == (WindowView { m: reset_at, lc: 0, rc: 0, mc: 0, ks: 0, mm: 0 }),
        WindowView::fresh(reset_at).stamped(now) == WindowView::fresh(now),
        forall|b: Bucket| #[trigger] WindowView::fresh(reset_at).count(b) == 0,
{
}

/// Counts are additive over concatenation: from a fresh window, the counts
/// after `e1` then `e2` are the sums of the counts after `e1` alone and after
/// `e2` alone.
pub proof fn lemma_counts_concatenate(m: int, e1: Seq<Bucket>, e2: Seq<Bucket>)
    ensures
        forall|b: Bucket| #[trigger] WindowView::fresh(m).recorded_all(e1 + e2).count(b)
            == WindowView::fresh(m).recorded_all(e1).count(b) + WindowView::fresh(m).recorded_all(e2).count(b),
        WindowView::fresh(m).recorded_all(e1 + e2).m == m,
{
    let w = WindowView::fresh(m);
    lemma_counts_match_events(w, e1 + e2);
    lemma_counts_match_events(w, e1);
    lemma_counts_match_events(w, e2);
    assert forall|b: Bucket| #[trigger] w.recorded_all(e1 + e2).count(b)
        == w.recorded_all(e1).count(b) + w.recorded_all(e2).count(b) by {
        lemma_occurrences_concat(e1, e2, b);
    }
}

/// A failed save leaves the snapshot's window in place; with no new events,
/// the next tick at minute `now2` snapshots the same counters, stamped with
/// `now2`, which is the same or a later minute when the clock has not gone back.
pub proof fn lemma_retry_after_failed_save(w: WindowView, now1: int, now2: int)
    ensures
        w.stamped(now1).stamped(now2).same_counts(w.stamped(now1)),
        w.stamped(now1).stamped(now2).m == now2,
        now2 >= now1 ==> w.stamped(now1).stamped(now2).m >= w.stamped(now1).m,
{
}

} // verus!
