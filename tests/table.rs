use span_metrics::table::{SpanRecord, SpanTable};
use span_metrics::MetricData;

fn record(key: &str) -> SpanRecord {
    SpanRecord { key: key.to_string(), data: MetricData::new() }
}

#[test]
fn handles_start_at_one_and_are_distinct() {
    let mut t = SpanTable::new();
    assert_eq!(t.insert(record("a")), Some(1));
    assert_eq!(t.insert(record("b")), Some(2));
    assert_eq!(t.insert(record("c")), Some(3));
    assert_eq!(t.get(2).map(|r| r.key.clone()), Some("b".to_string()));
}

#[test]
fn freed_slot_is_reused_first() {
    let mut t = SpanTable::new();
    t.insert(record("a"));
    t.insert(record("b"));
    t.insert(record("c"));
    let removed = t.remove(2);
    assert_eq!(removed.map(|r| r.key), Some("b".to_string()));
    assert!(t.get(2).is_none());
    assert_eq!(t.insert(record("d")), Some(2));
    assert_eq!(t.get(2).map(|r| r.key.clone()), Some("d".to_string()));
    assert_eq!(t.insert(record("e")), Some(4));
}

#[test]
fn unknown_handles_are_absent() {
    let mut t = SpanTable::new();
    assert!(t.get(0).is_none());
    assert!(t.get(1).is_none());
    assert!(t.remove(1).is_none());
    t.insert(record("a"));
    assert!(t.get(0).is_none());
    assert!(t.get(2).is_none());
    assert!(t.remove(0).is_none());
}

#[test]
fn set_data_keeps_the_name() {
    let mut t = SpanTable::new();
    let h = t.insert(record("a")).unwrap();
    let mut d = MetricData::new();
    d.mark_entered(5);
    t.set_data(h, d);
    let r = t.get(h).unwrap();
    assert_eq!(r.key, "a");
    assert_eq!(r.data, d);
}
