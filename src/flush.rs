use vstd::prelude::*;

use crate::counter::EventCounter;
use crate::frame::{DataFrame, WindowView};

verus! {

/// What the flush loop is to do after a tick.
#[derive(Clone, Copy, Debug, PartialEq, Eq, Structural)]
pub enum FlushAction {
    /// Hand this snapshot to the persistence sink, outside the counter's lock,
    /// and report the outcome with `on_save_result`.
    Save(DataFrame),
    /// A flush is still in flight: do nothing on this tick.
    Skip,
}

/// The decisions of the periodic flush: on each tick, stamp the window with
/// the current minute and take a snapshot to persist; after persisting, clear
/// the counters on success and leave them on failure, so that the next
/// snapshot carries the unsaved counts along. At most one flush is in flight.
pub struct FlushScheduler {
    in_flight: bool,
}

impl FlushScheduler {
    /// Whether a snapshot has been handed out and its outcome not yet reported.
    pub closed spec fn persisting(&self) -> bool {
        self.in_flight
    }

    /// An idle scheduler.
    pub fn new() -> (r: Self)
        ensures
            !r.persisting(),
    {
        FlushScheduler { in_flight: false }
    }

    /// Whether a snapshot has been handed out and its outcome not yet reported.
    pub fn is_persisting(&self) -> (r: bool)
        ensures
            r == self.persisting(),
    {
        self.in_flight
    }

    /// One timer tick at epoch minute `now`. When idle: moves the window to
    /// `now`, keeps its counters, and returns a snapshot of it to persist.
    /// While a flush is in flight: changes nothing and returns `Skip`.
    pub fn on_tick(&mut self, counter: &mut EventCounter, now: i64) -> (r: FlushAction)
        ensures
            !old(self).persisting() ==> {
                &&& final(counter)@ == old(counter)@.stamped(now as int)
                &&& r matches FlushAction::Save(snap) && snap@ == final(counter)@
                &&& final(self).persisting()
            },
            old(self).persisting() ==> {
                &&& final(counter)@ == old(counter)@
                &&& r == FlushAction::Skip
                &&& final(self).persisting()
            },
    {
        if self.in_flight {
            FlushAction::Skip
        } else {
            counter.set_epoch_minute(now);
            let snap = counter.snapshot();
            self.in_flight = true;
            FlushAction::Save(snap)
        }
    }

    /// Reports the outcome of persisting the snapshot of the last tick, at
    /// epoch minute `now`. On success the counters are zeroed together and the
    /// window moves to `now`; on failure the window is left untouched. With no
    /// flush in flight nothing changes. The scheduler is idle afterwards.
    /// Counts recorded between the snapshot and a successful reset are
    /// cleared with the rest: the window boundary falls at the reset.
    pub fn on_save_result(&mut self, counter: &mut EventCounter, saved: bool, now: i64)
        ensures
            old(self).persisting() && saved ==> final(counter)@ == WindowView::fresh(now as int),
            !(old(self).persisting() && saved) ==> final(counter)@ == old(counter)@,
            !final(self).persisting(),
    {
        if self.in_flight && saved {
            counter.reset_counters(now);
        }
        self.in_flight = false;
    }
}

} // verus!
