//! Lifecycle state of one span: how often it was entered, and when.
//!
//! Two policies are fixed here. An exit measures from the most recent entry,
//! not the first, so a re-entered span reports the innermost window. Closing
//! a span reports its entry count both as a counter increment and as a value,
//! and a span that was never entered reports nothing at all.
use vstd::prelude::*;

use crate::emit::{emissions_view, Emission, MetricKind};

verus! {

/// Timing and count state of one span between creation and close.
///
/// `first_entered` is latched by the first entry; `last_entered` always holds
/// the most recent entry and is the start of the window that the next exit
/// measures; `last_exited` holds the most recent accepted exit.
#[derive(Clone, Copy, PartialEq, Eq, Structural, Debug)]
pub struct MetricData {
    pub enter_count: u64,
    pub first_entered: Option<u64>,
    pub last_entered: Option<u64>,
    pub last_exited: Option<u64>,
}

/// The state of a span that was just created: no entries, no timestamps.
pub open spec fn fresh_data() -> MetricData {
    MetricData { enter_count: 0, first_entered: None, last_entered: None, last_exited: None }
}

/// What a span reports when it is closed: for a span entered at least once,
/// a counter increment and a value, both the number of entries; for a span
/// never entered, nothing.
pub open spec fn close_report(data: MetricData, key: Seq<char>) -> Seq<(MetricKind, Seq<char>, u64)> {
    if data.enter_count > 0 {
        seq![(MetricKind::Counter, key, data.enter_count), (MetricKind::Value, key, data.enter_count)]
    } else {
        seq![]
    }
}

impl MetricData {
    /// The state after an entry at time `now`.
    pub open spec fn entered(self, now: u64) -> MetricData {
        MetricData {
            enter_count: (self.enter_count + 1) as u64,
            first_entered: if self.first_entered is None {
                Some(now)
            } else {
                self.first_entered
            },
            last_entered: Some(now),
            last_exited: self.last_exited,
        }
    }

    /// An exit at `now` is consistent with a monotonic clock: it does not
    /// precede the most recent entry.
    pub open spec fn exit_in_order(self, now: u64) -> bool {
        match self.last_entered {
            Some(t) => t <= now,
            None => true,
        }
    }

    /// The duration that an exit at `now` observes: the time since the most
    /// recent entry, or nothing when the span was never entered.
    pub open spec fn observation(self, now: u64) -> Option<u64> {
        match self.last_entered {
            Some(t) => Some((now - t) as u64),
            None => None,
        }
    }

    /// The state after an exit at `now`; an exit before any entry changes nothing.
    pub open spec fn exited(self, now: u64) -> MetricData {
        if self.last_entered is Some {
            MetricData { last_exited: Some(now), ..self }
        } else {
            self
        }
    }

    /// The state of a new span.
    pub fn new() -> (r: MetricData)
        ensures
            r == fresh_data(),
    {
        MetricData { enter_count: 0, first_entered: None, last_entered: None, last_exited: None }
    }

    /// Records an entry at `now`.
    pub fn mark_entered(&mut self, now: u64)
        requires
            old(self).enter_count < u64::MAX,
        ensures
            *final(self) == old(self).entered(now),
    {
        self.enter_count = self.enter_count + 1;
        if self.first_entered.is_none() {
            self.first_entered = Some(now);
        }
        self.last_entered = Some(now);
    }

    /// Records an exit at `now` and returns the time elapsed since the most
    /// recent entry; without a prior entry nothing is recorded or returned.
    pub fn mark_exited(&mut self, now: u64) -> (r: Option<u64>)
        requires
            old(self).exit_in_order(now),
        ensures
            *final(self) == old(self).exited(now),
            r == old(self).observation(now),
    {
        match self.last_entered {
            Some(t) => {
                self.last_exited = Some(now);
                Some(now - t)
            },
            None => None,
        }
    }

    /// The emissions for closing a span whose metric name is `key`.
    pub fn flush(&self, key: &String) -> (r: Vec<Emission>)
        ensures
            emissions_view(r@) == close_report(*self, key@),
    {
        let mut r: Vec<Emission> = Vec::new();
        if self.enter_count > 0 {
            r.push(Emission::new(MetricKind::Counter, key, self.enter_count));
            r.push(Emission::new(MetricKind::Value, key, self.enter_count));
        }
        assert(emissions_view(r@) =~= close_report(*self, key@));
        r
    }
}

} // verus!
