use vstd::prelude::*;

use crate::bucket::Bucket;

verus! {

/// One time window of activity: the epoch minute it belongs to and the five
/// activity counters accumulated in it.
#[derive(Clone, Copy, Debug, PartialEq, Eq, Structural)]
pub struct DataFrame {
    /// Minutes since the Unix epoch.
    pub m: i64,
    pub lc: u64,
    pub rc: u64,
    pub mc: u64,
    pub ks: u64,
    pub mm: u64,
}

/// Mathematical model of a window: its epoch minute and unbounded counters.
pub struct WindowView {
    pub m: int,
    pub lc: nat,
    pub rc: nat,
    pub mc: nat,
    pub ks: nat,
    pub mm: nat,
}

impl WindowView {
    /// A window for minute `m` with every counter at zero.
    pub open spec fn fresh(m: int) -> WindowView {
        WindowView { m, lc: 0, rc: 0, mc: 0, ks: 0, mm: 0 }
    }

    /// The counter that `b` is attributed to; zero for `Ignored`.
    pub open spec fn count(self, b: Bucket) -> nat {
        match b {
            Bucket::LeftClick => self.lc,
            Bucket::RightClick => self.rc,
            Bucket::MiddleClick => self.mc,
            Bucket::Keystroke => self.ks,
            Bucket::MouseMove => self.mm,
            Bucket::Ignored => 0,
        }
    }

    /// The five counters agree (the epoch minute may differ).
    pub open spec fn same_counts(self, o: WindowView) -> bool {
        &&& self.lc == o.lc
        &&& self.rc == o.rc
        &&& self.mc == o.mc
        &&& self.ks == o.ks
        &&& self.mm == o.mm
    }

    /// The window after one event of bucket `b`: its counter grows by one,
    /// nothing else changes; an `Ignored` event leaves the window as it is.
    pub open spec fn recorded(self, b: Bucket) -> WindowView {
        match b {
            Bucket::LeftClick => WindowView { lc: self.lc + 1, ..self },
            Bucket::RightClick => WindowView { rc: self.rc + 1, ..self },
            Bucket::MiddleClick => WindowView { mc: self.mc + 1, ..self },
            Bucket::Keystroke => WindowView { ks: self.ks + 1, ..self },
            Bucket::MouseMove => WindowView { mm: self.mm + 1, ..self },
            Bucket::Ignored => self,
        }
    }

    /// The window after the events of `s`, in order.
    pub open spec fn recorded_all(self, s: Seq<Bucket>) -> WindowView
        decreases s.len(),
    {
        if s.len() == 0 {
            self
        } else {
            self.recorded_all(s.drop_last()).recorded(s.last())
        }
    }

    /// The window moved to minute `m`, its counters kept.
    pub open spec fn stamped(self, m: int) -> WindowView {
        WindowView { m, ..self }
    }
}

/// Number of events of bucket `b` in `s`.
pub open spec fn occurrences(s: Seq<Bucket>, b: Bucket) -> nat
    decreases s.len(),
{
    if s.len() == 0 {
        0
    } else {
        occurrences(s.drop_last(), b) + if s.last() == b { 1nat } else { 0nat }
    }
}

impl View for DataFrame {
    type V = WindowView;

    open spec fn view(&self) -> WindowView {
        WindowView {
            m: self.m as int,
            lc: self.lc as nat,
            rc: self.rc as nat,
            mc: self.mc as nat,
            ks: self.ks as nat,
            mm: self.mm as nat,
        }
    }
}

impl DataFrame {
    /// A window for minute `m` with every counter at zero.
    pub fn fresh(m: i64) -> (r: DataFrame)
        ensures
            r@ == WindowView::fresh(m as int),
    {
        DataFrame { m, lc: 0, rc: 0, mc: 0, ks: 0, mm: 0 }
    }
}

} // verus!
