use span_metrics::names::derive_metric_name;

#[test]
fn metric_name_is_deterministic() {
    let first = derive_metric_name("svc::job", "run");
    let second = derive_metric_name("svc::job", "run");
    assert_eq!(first, "svc_job_run");
    assert_eq!(second, "svc_job_run");
}

#[test]
fn metric_name_flattens_every_separator() {
    assert_eq!(derive_metric_name("app::worker", "shave"), "app_worker_shave");
    assert_eq!(derive_metric_name("a::b::c", "d"), "a_b_c_d");
}

#[test]
fn metric_name_of_plain_target() {
    assert_eq!(derive_metric_name("app", "shave"), "app_shave");
}

#[test]
fn metric_name_keeps_single_colons() {
    assert_eq!(derive_metric_name("a:b", "x"), "a:b_x");
    assert_eq!(derive_metric_name(":::", "x"), "_:_x");
}

#[test]
fn metric_name_of_empty_target() {
    assert_eq!(derive_metric_name("", "run"), "_run");
}

#[test]
fn metric_name_of_non_ascii_target() {
    assert_eq!(derive_metric_name("ü::é", "ß"), "ü_é_ß");
}
