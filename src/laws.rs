//! Properties of the bridge that relate several of its callbacks.
use vstd::prelude::*;

use crate::bridge::{
    close_emissions, close_step, created, enter_fault, enter_step, exit_emission, exit_fault,
    exit_step, fresh_span, Spans,
};
use crate::emit::MetricKind;

verus! {

/// One event on a single span, with its timestamp.
pub enum SpanEvent {
    Enter(u64),
    Exit(u64),
}

/// The live spans after the events `evs`, in order, on span `h`.
pub open spec fn replay(m: Spans, h: u64, evs: Seq<SpanEvent>) -> Spans
    decreases evs.len(),
{
    if evs.len() == 0 {
        m
    } else {
        let prev = replay(m, h, evs.drop_last());
        match evs.last() {
            SpanEvent::Enter(t) => enter_step(prev, h, t),
            SpanEvent::Exit(t) => exit_step(prev, h, t),
        }
    }
}

/// The number of entries among `evs`.
pub open spec fn enters(evs: Seq<SpanEvent>) -> nat
    decreases evs.len(),
{
    if evs.len() == 0 {
        0
    } else {
        enters(evs.drop_last()) + if evs.last() is Enter {
            1nat
        } else {
            0nat
        }
    }
}

proof fn lemma_replay_counts(m: Spans, h: u64, evs: Seq<SpanEvent>)
    requires
        m.contains_key(h),
        m[h].1.enter_count + evs.len() < u64::MAX,
    ensures
        enters(evs) <= evs.len(),
        replay(m, h, evs).contains_key(h),
        replay(m, h, evs)[h].0 == m[h].0,
        replay(m, h, evs)[h].1.enter_count == m[h].1.enter_count + enters(evs),
    decreases evs.len(),
{
    if evs.len() > 0 {
        lemma_replay_counts(m, h, evs.drop_last());
    }
}

/// An entry at `t_enter` followed by an exit at `t_exit` on a new span emits
/// one timing of exactly `t_exit - t_enter`, and closing it then reports one
/// entry.
pub proof fn lemma_enter_exit_close(
    m0: Spans,
    key: Seq<char>,
    h: u64,
    m1: Spans,
    t_enter: u64,
    t_exit: u64,
)
    requires
        created(m0, key, h, m1),
        t_enter <= t_exit,
    ensures
        ({
            let m2 = enter_step(m1, h, t_enter);
            let m3 = exit_step(m2, h, t_exit);
            &&& !enter_fault(m1, h)
            &&& !exit_fault(m2, h, t_exit)
            &&& exit_emission(m2, h, t_exit) == Some(
                (MetricKind::Timing, key, (t_exit - t_enter) as u64),
            )
            &&& close_emissions(m3, h) == seq![
                (MetricKind::Counter, key, 1u64),
                (MetricKind::Value, key, 1u64),
            ]
        }),
{
}

/// Whatever entries and exits a new span sees, closing it reports the number
/// of entries as its counter increment and as its value, and nothing when it
/// was never entered.
pub proof fn lemma_close_counts_entries(
    m0: Spans,
    key: Seq<char>,
    h: u64,
    m1: Spans,
    evs: Seq<SpanEvent>,
)
    requires
        created(m0, key, h, m1),
        evs.len() < u64::MAX,
    ensures
        ({
            let n = enters(evs);
            close_emissions(replay(m1, h, evs), h) == if n > 0 {
                seq![(MetricKind::Counter, key, n as u64), (MetricKind::Value, key, n as u64)]
            } else {
                seq![]
            }
        }),
{
    lemma_replay_counts(m1, h, evs);
}

/// A span that is live keeps its handle to itself: creating another span
/// gives a different handle and leaves the first one live.
pub proof fn lemma_live_handles_distinct(m0: Spans, h1: u64, key: Seq<char>, h2: u64, m1: Spans)
    requires
        m0.contains_key(h1),
        created(m0, key, h2, m1),
    ensures
        h1 != h2,
        m1.contains_key(h1),
        m1[h1] == m0[h1],
{
}

/// After a span is closed, entering, exiting or closing its handle again
/// changes nothing, emits nothing and raises no fault.
pub proof fn lemma_closed_handle_inert(m0: Spans, h: u64, now: u64)
    ensures
        ({
            let m1 = close_step(m0, h);
            &&& !m1.contains_key(h)
            &&& enter_step(m1, h, now) == m1
            &&& !enter_fault(m1, h)
            &&& exit_step(m1, h, now) == m1
            &&& !exit_fault(m1, h, now)
            &&& exit_emission(m1, h, now) is None
            &&& close_step(m1, h) == m1
            &&& close_emissions(m1, h) == Seq::<(MetricKind, Seq<char>, u64)>::empty()
        }),
{
    assert(close_step(close_step(m0, h), h) =~= close_step(m0, h));
}

/// Exiting a span that was never entered changes nothing and emits nothing.
pub proof fn lemma_exit_before_enter(m0: Spans, key: Seq<char>, h: u64, m1: Spans, now: u64)
    requires
        created(m0, key, h, m1),
    ensures
        !exit_fault(m1, h, now),
        exit_step(m1, h, now) == m1,
        exit_emission(m1, h, now) is None,
{
    assert(exit_step(m1, h, now) =~= m1);
}

/// A span created after another was closed starts fresh, even when it gets
/// the closed span's handle: no entries and no timestamps.
pub proof fn lemma_reused_handle_fresh(m0: Spans, h: u64, key: Seq<char>, h2: u64, m2: Spans)
    requires
        created(close_step(m0, h), key, h2, m2),
    ensures
        m2[h2] == fresh_span(key),
        m2[h2].1.enter_count == 0,
        m2[h2].1.first_entered is None,
        m2[h2].1.last_entered is None,
        m2[h2].1.last_exited is None,
{
}

/// Closing a span frees its handle for the next creation whenever every
/// smaller handle is still live.
pub proof fn lemma_closed_handle_reused(m0: Spans, h: u64, key: Seq<char>, h2: u64, m2: Spans)
    requires
        h != 0,
        m0.contains_key(h),
        forall|k: u64| 1 <= k < h ==> m0.contains_key(k),
        created(close_step(m0, h), key, h2, m2),
    ensures
        h2 == h,
        m2[h] == fresh_span(key),
{
    if h2 < h {
        assert(m0.contains_key(h2));
        assert(close_step(m0, h).contains_key(h2));
    } else if h2 > h {
        assert(!close_step(m0, h).contains_key(h));
    }
}

} // verus!
