//! What the bridge hands to a metrics sink.
use vstd::prelude::*;

verus! {

/// The three write-only operations of a metrics sink.
#[derive(Clone, Copy, PartialEq, Eq, Structural, Debug)]
pub enum MetricKind {
    /// Add `value` to a cumulative counter.
    Counter,
    /// One duration observation in nanoseconds; the sink aggregates them.
    Timing,
    /// A point-in-time value.
    Value,
}

/// One fire-and-forget call on a metrics sink.
#[derive(Clone, PartialEq, Eq, Debug)]
pub struct Emission {
    pub kind: MetricKind,
    pub name: String,
    pub value: u64,
}

impl View for Emission {
    type V = (MetricKind, Seq<char>, u64);

    open spec fn view(&self) -> (MetricKind, Seq<char>, u64) {
        (self.kind, self.name@, self.value)
    }
}

/// The views of a list of emissions.
pub open spec fn emissions_view(v: Seq<Emission>) -> Seq<(MetricKind, Seq<char>, u64)> {
    v.map_values(|e: Emission| e@)
}

impl Emission {
    pub fn new(kind: MetricKind, name: &String, value: u64) -> (r: Emission)
        ensures
            r@ == (kind, name@, value),
    {
        Emission { kind, name: name.clone(), value }
    }
}

} // verus!

verus! {

/// The view of an optional emission.
pub open spec fn option_view(o: Option<Emission>) -> Option<(MetricKind, Seq<char>, u64)> {
    match o {
        Some(e) => Some(e@),
        None => None,
    }
}

} // verus!
