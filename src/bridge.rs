//! The bridge driven by a tracing framework: one callback per span event,
//! each answered with the emissions that a metrics sink should receive.
use vstd::prelude::*;

use crate::clock::{new_clock, now_nanos};
use crate::emit::{emissions_view, option_view, Emission, MetricKind};
use crate::names::{derive_metric_name, metric_name};
use crate::table::{exhausted, lowest_free, SpanRecord, SpanTable};
use crate::tracker::{close_report, fresh_data, MetricData};

verus! {

/// The live spans of a bridge: handle to metric name and lifecycle data.
pub type Spans = Map<u64, (Seq<char>, MetricData)>;

/// An environment error that the bridge refuses to turn into a metric.
#[derive(Clone, Copy, PartialEq, Eq, Structural, Debug)]
pub enum Fault {
    /// A span was entered more times than its counter can hold.
    EnterCountOverflow,
    /// An exit carries a time earlier than the span's most recent entry.
    ClockWentBackwards,
}

/// The state of a span that was just created under the metric name `key`.
pub open spec fn fresh_span(key: Seq<char>) -> (Seq<char>, MetricData) {
    (key, fresh_data())
}

/// Creating a span named `key` in `before` gave handle `h` and left `after`:
/// `h` is the lowest handle not live, and it now names a fresh span.
pub open spec fn created(before: Spans, key: Seq<char>, h: u64, after: Spans) -> bool {
    lowest_free(before, h) && after == before.insert(h, fresh_span(key))
}

/// Entering live span `h` would overflow its entry counter.
pub open spec fn enter_fault(m: Spans, h: u64) -> bool {
    m.contains_key(h) && m[h].1.enter_count == u64::MAX
}

/// The live spans after entering `h` at `now`; unknown handles are ignored.
pub open spec fn enter_step(m: Spans, h: u64, now: u64) -> Spans {
    if m.contains_key(h) && !enter_fault(m, h) {
        m.insert(h, (m[h].0, m[h].1.entered(now)))
    } else {
        m
    }
}

/// Exiting live span `h` at `now` would precede its most recent entry.
pub open spec fn exit_fault(m: Spans, h: u64, now: u64) -> bool {
    m.contains_key(h) && !m[h].1.exit_in_order(now)
}

/// The live spans after exiting `h` at `now`; unknown handles are ignored.
pub open spec fn exit_step(m: Spans, h: u64, now: u64) -> Spans {
    if m.contains_key(h) && !exit_fault(m, h, now) {
        m.insert(h, (m[h].0, m[h].1.exited(now)))
    } else {
        m
    }
}

/// What exiting `h` at `now` emits: the time since the span's most recent
/// entry, under its metric name; nothing for an unknown or never-entered span.
pub open spec fn exit_emission(m: Spans, h: u64, now: u64) -> Option<(MetricKind, Seq<char>, u64)> {
    if m.contains_key(h) && !exit_fault(m, h, now) {
        match m[h].1.observation(now) {
            Some(d) => Some((MetricKind::Timing, m[h].0, d)),
            None => None,
        }
    } else {
        None
    }
}

/// The live spans after closing `h`.
pub open spec fn close_step(m: Spans, h: u64) -> Spans {
    m.remove(h)
}

/// What closing `h` emits; nothing for an unknown handle.
pub open spec fn close_emissions(m: Spans, h: u64) -> Seq<(MetricKind, Seq<char>, u64)> {
    if m.contains_key(h) {
        close_report(m[h].1, m[h].0)
    } else {
        seq![]
    }
}

/// Turns span lifecycle events into metric emissions.
pub struct Metrics {
    clock: quanta::Clock,
    table: SpanTable,
}

impl Metrics {
    /// The spans that are live.
    pub closed spec fn spans(&self) -> Spans {
        self.table@
    }

    /// A bridge with no live spans, timed by the given clock.
    pub fn with_clock(clock: quanta::Clock) -> (r: Metrics)
        ensures
            r.spans() == Spans::empty(),
    {
        Metrics { clock, table: SpanTable::new() }
    }

    /// A bridge with no live spans, timed by the fastest clock available.
    pub fn new() -> (r: Metrics)
        ensures
            r.spans() == Spans::empty(),
    {
        Metrics::with_clock(new_clock())
    }

    /// Registers a new span and returns its handle; `None` when no handle is
    /// left. The metric name is derived here, once for the span's life.
    pub fn new_span(&mut self, target: &str, name: &str) -> (r: Option<u64>)
        ensures
            r is None <==> exhausted(old(self).spans()),
            r is None ==> final(self).spans() == old(self).spans(),
            r matches Some(h) ==> created(
                old(self).spans(),
                metric_name(target@, name@),
                h,
                final(self).spans(),
            ),
    {
        let key = derive_metric_name(target, name);
        let rec = SpanRecord { key, data: MetricData::new() };
        self.table.insert(rec)
    }

    /// Enters span `h` at time `now`.
    pub fn enter_at(&mut self, h: u64, now: u64) -> (r: Result<(), Fault>)
        ensures
            final(self).spans() == enter_step(old(self).spans(), h, now),
            r is Err <==> enter_fault(old(self).spans(), h),
            r matches Err(f) ==> f == Fault::EnterCountOverflow,
    {
        match self.table.get(h) {
            Some(rec) => {
                let mut data = rec.data;
                if data.enter_count == u64::MAX {
                    return Err(Fault::EnterCountOverflow);
                }
                data.mark_entered(now);
                self.table.set_data(h, data);
                Ok(())
            },
            None => Ok(()),
        }
    }

    /// Exits span `h` at time `now` and returns the timing it observes.
    pub fn exit_at(&mut self, h: u64, now: u64) -> (r: Result<Option<Emission>, Fault>)
        ensures
            final(self).spans() == exit_step(old(self).spans(), h, now),
            r is Err <==> exit_fault(old(self).spans(), h, now),
            r matches Err(f) ==> f == Fault::ClockWentBackwards,
            r matches Ok(e) ==> option_view(e) == exit_emission(old(self).spans(), h, now),
    {
        match self.table.get(h) {
            Some(rec) => {
                let mut data = rec.data;
                if let Some(t) = data.last_entered {
                    if now < t {
                        return Err(Fault::ClockWentBackwards);
                    }
                }
                let key = rec.key.clone();
                let observed = data.mark_exited(now);
                self.table.set_data(h, data);
                match observed {
                    Some(d) => Ok(Some(Emission::new(MetricKind::Timing, &key, d))),
                    None => Ok(None),
                }
            },
            None => Ok(None),
        }
    }

    /// Closes span `h`, frees its handle, and returns what it reports.
    pub fn on_close(&mut self, h: u64) -> (r: Vec<Emission>)
        ensures
            final(self).spans() == close_step(old(self).spans(), h),
            emissions_view(r@) == close_emissions(old(self).spans(), h),
    {
        match self.table.remove(h) {
            Some(rec) => rec.data.flush(&rec.key),
            None => Vec::new(),
        }
    }

    /// Enters span `h` now.
    pub fn on_enter(&mut self, h: u64) -> (r: Result<(), Fault>)
        ensures
            exists|now: u64| final(self).spans() == enter_step(old(self).spans(), h, now),
            r is Err <==> enter_fault(old(self).spans(), h),
    {
        let now = now_nanos(&self.clock);
        self.enter_at(h, now)
    }

    /// Exits span `h` now and returns the timing it observes.
    pub fn on_exit(&mut self, h: u64) -> (r: Result<Option<Emission>, Fault>)
        ensures
            exists|now: u64|
                {
                    &&& final(self).spans() == exit_step(old(self).spans(), h, now)
                    &&& (r is Err <==> exit_fault(old(self).spans(), h, now))
                    &&& (r matches Ok(e) ==> option_view(e) == exit_emission(
                        old(self).spans(),
                        h,
                        now,
                    ))
                },
    {
        let now = now_nanos(&self.clock);
        self.exit_at(h, now)
    }
}

} // verus!
