//! The table of live spans, keyed by handles that are reused after close.
use vstd::prelude::*;

use crate::tracker::MetricData;

verus! {

/// The state kept for one live span: its metric name, derived once at
/// creation, and its lifecycle data.
pub struct SpanRecord {
    pub key: String,
    pub data: MetricData,
}

impl View for SpanRecord {
    type V = (Seq<char>, MetricData);

    open spec fn view(&self) -> (Seq<char>, MetricData) {
        (self.key@, self.data)
    }
}

/// Live spans in slots; the span in slot `i` has handle `i + 1`, so that
/// handle 0 never names a span.
pub struct SpanTable {
    slots: Vec<Option<SpanRecord>>,
}

/// `h` is the handle of a free slot or one past the last slot of a table
/// with the live spans `live`, and every smaller nonzero handle is live.
pub open spec fn lowest_free(live: Map<u64, (Seq<char>, MetricData)>, h: u64) -> bool {
    &&& h != 0
    &&& !live.contains_key(h)
    &&& forall|k: u64| 1 <= k < h ==> live.contains_key(k)
}

/// Every handle that a slot index can give is live.
pub open spec fn exhausted(live: Map<u64, (Seq<char>, MetricData)>) -> bool {
    forall|k: u64| 1 <= k <= usize::MAX ==> #[trigger] live.contains_key(k)
}

impl View for SpanTable {
    type V = Map<u64, (Seq<char>, MetricData)>;

    closed spec fn view(&self) -> Map<u64, (Seq<char>, MetricData)> {
        Map::new(
            |h: u64| 1 <= h <= self.slots@.len() && self.slots@[h - 1] is Some,
            |h: u64| self.slots@[h - 1]->Some_0@,
        )
    }
}

impl SpanTable {
    pub fn new() -> (r: SpanTable)
        ensures
            r@ == Map::<u64, (Seq<char>, MetricData)>::empty(),
    {
        let r = SpanTable { slots: Vec::new() };
        assert(r@ =~= Map::<u64, (Seq<char>, MetricData)>::empty());
        r
    }

    /// Stores `rec` in the lowest free slot and returns its handle; `None`
    /// when the table is exhausted.
    pub fn insert(&mut self, rec: SpanRecord) -> (r: Option<u64>)
        ensures
            r is None <==> exhausted(old(self)@),
            r is None ==> final(self)@ == old(self)@,
            r matches Some(h) ==> lowest_free(old(self)@, h) && final(self)@ == old(self)@.insert(
                h,
                rec@,
            ),
    {
        let len = self.slots.len();
        let mut i: usize = 0;
        while i < len && self.slots[i].is_some()
            invariant
                len == self.slots@.len(),
                i <= len,
                forall|j: int| 0 <= j < i ==> self.slots@[j] is Some,
            decreases len - i,
        {
            i = i + 1;
        }
        if i == len && len == usize::MAX {
            assert forall|k: u64| 1 <= k <= usize::MAX implies #[trigger] self@.contains_key(k) by {
                assert(self.slots@[k - 1] is Some);
            }
            return None;
        }
        assert(!self@.contains_key((i + 1) as u64));
        let ghost before = self@;
        let h = (i as u64) + 1;
        if i < len {
            self.slots.set(i, Some(rec));
        } else {
            self.slots.push(Some(rec));
        }
        assert(self@ =~= before.insert(h, rec@));
        assert forall|k: u64| 1 <= k < h implies before.contains_key(k) by {
            assert(old(self).slots@[k - 1] is Some);
        }
        Some(h)
    }

    /// The slot index of a handle, when the handle lies within the table.
    fn slot_of(&self, h: u64) -> (r: Option<usize>)
        ensures
            r is Some <==> 1 <= h <= self.slots@.len(),
            r matches Some(i) ==> i == h - 1,
    {
        if h >= 1 && h <= self.slots.len() as u64 {
            Some((h - 1) as usize)
        } else {
            None
        }
    }

    /// The record of a live span; `None` for a stale or unknown handle.
    pub fn get(&self, h: u64) -> (r: Option<&SpanRecord>)
        ensures
            r is Some <==> self@.contains_key(h),
            r matches Some(rec) ==> rec@ == self@[h],
    {
        match self.slot_of(h) {
            Some(i) => self.slots[i].as_ref(),
            None => None,
        }
    }

    /// Replaces the lifecycle data of a live span, keeping its name.
    pub fn set_data(&mut self, h: u64, data: MetricData)
        requires
            old(self)@.contains_key(h),
        ensures
            final(self)@ == old(self)@.insert(h, (old(self)@[h].0, data)),
    {
        let ghost before = self@;
        if let Some(i) = self.slot_of(h) {
            if let Some(rec) = self.slots[i].take() {
                self.slots.set(i, Some(SpanRecord { key: rec.key, data }));
            }
        }
        assert(self@ =~= before.insert(h, (before[h].0, data)));
    }

    /// Frees the slot of a live span for reuse and returns its record;
    /// `None`, with nothing changed, for a stale or unknown handle.
    pub fn remove(&mut self, h: u64) -> (r: Option<SpanRecord>)
        ensures
            r is Some <==> old(self)@.contains_key(h),
            final(self)@ == old(self)@.remove(h),
            r matches Some(rec) ==> rec@ == old(self)@[h],
    {
        let ghost before = self@;
        match self.slot_of(h) {
            Some(i) => {
                let r = self.slots[i].take();
                assert(self@ =~= before.remove(h));
                r
            },
            None => {
                assert(self@ =~= before.remove(h));
                None
            },
        }
    }
}

} // verus!
