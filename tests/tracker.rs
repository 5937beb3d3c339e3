use span_metrics::{Emission, MetricData, MetricKind};

fn emission(kind: MetricKind, name: &str, value: u64) -> Emission {
    Emission { kind, name: name.to_string(), value }
}

#[test]
fn new_data_is_empty() {
    let d = MetricData::new();
    assert_eq!(d.enter_count, 0);
    assert_eq!(d.first_entered, None);
    assert_eq!(d.last_entered, None);
    assert_eq!(d.last_exited, None);
}

#[test]
fn enter_then_exit_measures_the_window() {
    let mut d = MetricData::new();
    d.mark_entered(100);
    assert_eq!(d.mark_exited(250), Some(150));
    assert_eq!(d.enter_count, 1);
    assert_eq!(d.first_entered, Some(100));
    assert_eq!(d.last_exited, Some(250));
}

#[test]
fn re_entry_measures_from_the_latest_entry() {
    let mut d = MetricData::new();
    d.mark_entered(10);
    d.mark_entered(20);
    assert_eq!(d.mark_exited(30), Some(10));
    assert_eq!(d.enter_count, 2);
    assert_eq!(d.first_entered, Some(10));
    assert_eq!(d.last_entered, Some(20));
}

#[test]
fn exit_without_entry_records_nothing() {
    let mut d = MetricData::new();
    assert_eq!(d.mark_exited(40), None);
    assert_eq!(d, MetricData::new());
}

#[test]
fn exit_at_entry_time_measures_zero() {
    let mut d = MetricData::new();
    d.mark_entered(7);
    assert_eq!(d.mark_exited(7), Some(0));
}

#[test]
fn flush_of_unentered_span_is_empty() {
    let d = MetricData::new();
    assert!(d.flush(&"app_shave".to_string()).is_empty());
}

#[test]
fn flush_reports_entry_count() {
    let mut d = MetricData::new();
    d.mark_entered(1);
    d.mark_entered(2);
    d.mark_entered(3);
    assert_eq!(
        d.flush(&"svc_job_run".to_string()),
        vec![
            emission(MetricKind::Counter, "svc_job_run", 3),
            emission(MetricKind::Value, "svc_job_run", 3),
        ]
    );
}
