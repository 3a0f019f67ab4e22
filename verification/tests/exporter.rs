use metrics::{Metrics, MetricsError};

fn scrape(m: &Metrics) -> String {
    String::from_utf8(m.handler().gather()).unwrap()
}

#[test]
fn fresh_registry_scrape_contains_process_metrics() {
    let m = Metrics::new();
    let body = scrape(&m);
    assert!(body.contains("process_cpu_seconds_total"));
    assert!(body.contains("process_open_fds"));
    assert!(body.contains("process_start_time_seconds"));
    assert!(body.contains("# HELP"));
    assert!(body.contains("# TYPE"));
}

#[test]
fn process_metric_names_are_taken() {
    let mut m = Metrics::new();
    let err = m.try_gauge("process_open_fds", "Clashes with the process collector.");
    assert!(matches!(err, Err(MetricsError::DuplicateName)));
}

#[test]
fn histogram_observation_shows_in_scrape() {
    let mut m = Metrics::new();
    let h = m
        .try_histogram_vec("request_size_bytes", "Size of requests.", &["method"])
        .unwrap();
    h.observe_size("get", 5);
    let body = scrape(&m);
    assert!(body.contains("request_size_bytes_count{method=\"get\"} 1"));
    assert!(body.contains("request_size_bytes_sum{method=\"get\"} 5"));
    assert!(body.contains("request_size_bytes_bucket{method=\"get\",le=\"+Inf\"} 1"));
}

#[test]
fn cloned_histogram_handle_shares_the_instrument() {
    let mut m = Metrics::new();
    let h = m
        .try_histogram_vec("batch_size", "Items per batch.", &["kind"])
        .unwrap();
    h.observe_size("full", 10);
    h.clone().observe_size("full", 20);
    let body = scrape(&m);
    assert!(body.contains("batch_size_count{kind=\"full\"} 2"));
    assert!(body.contains("batch_size_sum{kind=\"full\"} 30"));
}

#[test]
fn large_observation_is_counted() {
    let mut m = Metrics::new();
    let h = m
        .try_histogram_vec("huge_size_bytes", "Very large sizes.", &["src"])
        .unwrap();
    h.observe_size("disk", usize::MAX);
    let body = scrape(&m);
    assert!(body.contains("huge_size_bytes_count{src=\"disk\"} 1"));
}

#[test]
fn duplicate_name_is_rejected() {
    let mut m = Metrics::new();
    assert!(m.try_gauge("dup_metric", "First registration.").is_ok());
    let again = m.try_gauge("dup_metric", "Second registration.");
    assert!(matches!(again, Err(MetricsError::DuplicateName)));
    let as_histogram = m.try_histogram_vec("dup_metric", "Same name, other kind.", &["l"]);
    assert!(matches!(as_histogram, Err(MetricsError::DuplicateName)));
    let as_gauge_vec = m.try_gauge_vec("dup_metric", "Same name again.", "l");
    assert!(matches!(as_gauge_vec, Err(MetricsError::DuplicateName)));
}

#[test]
fn invalid_metric_name_is_rejected() {
    let mut m = Metrics::new();
    assert!(matches!(m.try_gauge("1bad", "Starts with a digit."), Err(MetricsError::InvalidInstrument)));
    assert!(matches!(m.try_gauge("", "Empty name."), Err(MetricsError::InvalidInstrument)));
    assert!(matches!(m.try_gauge("has space", "Space inside."), Err(MetricsError::InvalidInstrument)));
}

#[test]
fn empty_help_is_rejected() {
    let mut m = Metrics::new();
    assert!(matches!(m.try_gauge("no_help", ""), Err(MetricsError::InvalidInstrument)));
}

#[test]
fn invalid_label_names_are_rejected() {
    let mut m = Metrics::new();
    assert!(matches!(m.try_histogram_vec("h1", "Digit-led label.", &["9bad"]), Err(MetricsError::InvalidInstrument)));
    assert!(matches!(m.try_histogram_vec("h2", "Colon in label.", &["a:b"]), Err(MetricsError::InvalidInstrument)));
    assert!(matches!(m.try_histogram_vec("h3", "Duplicate labels.", &["a", "a"]), Err(MetricsError::InvalidInstrument)));
    assert!(matches!(m.try_gauge_vec("g1", "Bad label.", ""), Err(MetricsError::InvalidInstrument)));
}

#[test]
fn colon_is_valid_in_metric_names_only() {
    let mut m = Metrics::new();
    assert!(m.try_gauge("ns:updates", "Colon in a metric name.").is_ok());
}

#[test]
fn multi_label_histogram_is_accepted() {
    let mut m = Metrics::new();
    assert!(m
        .try_histogram_vec("rpc_seconds", "Latency.", &["method", "status"])
        .is_ok());
}

#[test]
fn observe_duration_returns_the_result_unchanged() {
    let mut m = Metrics::new();
    let h = m
        .try_histogram_vec("op_duration_seconds", "Operation timing.", &["op"])
        .unwrap();
    let answer = h.observe_duration("run", || 41 + 1);
    assert_eq!(answer, 42);
    let text = h.observe_duration("run", || String::from("done"));
    assert_eq!(text, "done");
    let body = scrape(&m);
    assert!(body.contains("op_duration_seconds_count{op=\"run\"} 2"));
    let sum_line = body
        .lines()
        .find(|l| l.starts_with("op_duration_seconds_sum{op=\"run\"} "))
        .unwrap();
    let value = sum_line.rsplit(' ').next().unwrap();
    assert!(!value.starts_with('-'));
}

#[test]
fn gauge_value_shows_in_scrape() {
    let mut m = Metrics::new();
    let g = m.try_gauge("g", "An example gauge.").unwrap();
    g.set(3);
    let body = scrape(&m);
    assert!(body.contains("\ng 3\n"));
}

#[test]
fn cloned_gauge_handle_shares_the_instrument() {
    let mut m = Metrics::new();
    let g = m.try_gauge("shared_gauge", "Set through a clone.").unwrap();
    g.clone().set(-7);
    let body = scrape(&m);
    assert!(body.contains("\nshared_gauge -7\n"));
}

#[test]
fn gauge_vec_value_shows_in_scrape_per_label() {
    let mut m = Metrics::new();
    let v = m
        .try_gauge_vec("queue_depth", "Depth per queue.", "queue")
        .unwrap();
    v.with_label_value("q1").set(2);
    v.with_label_value("q2").set(9);
    let body = scrape(&m);
    assert!(body.contains("queue_depth{queue=\"q1\"} 2"));
    assert!(body.contains("queue_depth{queue=\"q2\"} 9"));
}

#[test]
fn unused_instruments_do_not_break_the_scrape() {
    let mut m = Metrics::new();
    m.try_histogram_vec("never_observed", "No samples yet.", &["l"])
        .unwrap();
    m.try_gauge_vec("never_set", "No children yet.", "l").unwrap();
    let body = scrape(&m);
    assert!(!body.contains("never_observed_count"));
    assert!(body.contains("process_open_fds"));
}

#[test]
fn scrape_reflects_updates_between_scrapes() {
    let mut m = Metrics::new();
    let g = m.try_gauge("ticks", "A changing value.").unwrap();
    let handler = m.handler();
    g.set(1);
    let first = String::from_utf8(handler.gather()).unwrap();
    assert!(first.contains("\nticks 1\n"));
    g.set(2);
    let second = String::from_utf8(handler.gather()).unwrap();
    assert!(second.contains("\nticks 2\n"));
}
