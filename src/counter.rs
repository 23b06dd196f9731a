use vstd::prelude::*;

use crate::bucket::Bucket;
use crate::classify::{bucket_of, classify, InputEvent};
use crate::frame::{DataFrame, WindowView};

verus! {

/// Owner of the current counter window. Every change to the window goes
/// through its methods: one event recorded, the epoch minute set, or the
/// counters cleared as a whole. Callers that share it between the capture
/// path and the flush path hold it behind one lock.
pub struct EventCounter {
    frame: DataFrame,
}

impl View for EventCounter {
    type V = WindowView;

    closed spec fn view(&self) -> WindowView {
        self.frame@
    }
}

impl EventCounter {
    /// Whether one more event of bucket `b` can be counted without the
    /// counter leaving `u64`.
    pub open spec fn has_room_spec(&self, b: Bucket) -> bool {
        self@.count(b) < u64::MAX
    }

    /// A counter at epoch minute zero with every counter at zero.
    pub fn new() -> (r: Self)
        ensures
            r@ == WindowView::fresh(0),
    {
        EventCounter { frame: DataFrame::fresh(0) }
    }

    /// Sets the window's epoch minute, leaving the counters as they are.
    pub fn set_epoch_minute(&mut self, m: i64)
        ensures
            final(self)@ == old(self)@.stamped(m as int),
    {
        self.frame.m = m;
    }

    /// Whether one more event of bucket `b` can be counted.
    pub fn has_room(&self, b: Bucket) -> (r: bool)
        ensures
            r == self.has_room_spec(b),
    {
        match b {
            Bucket::LeftClick => self.frame.lc < u64::MAX,
            Bucket::RightClick => self.frame.rc < u64::MAX,
            Bucket::MiddleClick => self.frame.mc < u64::MAX,
            Bucket::Keystroke => self.frame.ks < u64::MAX,
            Bucket::MouseMove => self.frame.mm < u64::MAX,
            Bucket::Ignored => true,
        }
    }

    /// Counts one event of bucket `b`; an `Ignored` event changes nothing.
    pub fn record(&mut self, b: Bucket)
        requires
            old(self).has_room_spec(b),
        ensures
            final(self)@ == old(self)@.recorded(b),
    {
        match b {
            Bucket::LeftClick => self.frame.lc = self.frame.lc + 1,
            Bucket::RightClick => self.frame.rc = self.frame.rc + 1,
            Bucket::MiddleClick => self.frame.mc = self.frame.mc + 1,
            Bucket::Keystroke => self.frame.ks = self.frame.ks + 1,
            Bucket::MouseMove => self.frame.mm = self.frame.mm + 1,
            Bucket::Ignored => {},
        }
    }

    /// Classifies a raw event and counts it.
    pub fn update_from_event(&mut self, event: &InputEvent)
        requires
            old(self).has_room_spec(bucket_of(*event)),
        ensures
            final(self)@ == old(self)@.recorded(bucket_of(*event)),
    {
        let b = classify(event);
        self.record(b);
    }

    /// A copy of the current window; the counter is left as it is.
    pub fn snapshot(&self) -> (r: DataFrame)
        ensures
            r@ == self@,
    {
        self.frame
    }

    /// Zeroes the five counters together and moves the window to minute `m`.
    pub fn reset_counters(&mut self, m: i64)
        ensures
            final(self)@ == WindowView::fresh(m as int),
    {
        self.frame = DataFrame::fresh(m);
    }
}

} // verus!
