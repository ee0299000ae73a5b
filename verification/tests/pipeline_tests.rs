use telemetry_pipeline::event::{EventKind, RawEvent};
use telemetry_pipeline::metrics::MetricsSink;
use telemetry_pipeline::pipeline::{Pipeline, RecordOut};
use telemetry_pipeline::FieldEntry;

fn log_event(level: &str, message: &str, timestamp: u64) -> RawEvent {
    let mut e = RawEvent::empty();
    e.kind = EventKind::Log;
    e.level = Some(level.to_string());
    e.message = Some(message.to_string());
    e.timestamp = Some(timestamp);
    e
}

#[test]
fn scenario_warn_log() {
    let mut p = Pipeline::new(true, true, true);
    let event = log_event("WARN", "disk low", 1700000000000);
    let out = p.step(&event, 1700000000000);
    let rec = match out.record {
        Some(RecordOut::Log(rec)) => rec,
        _ => panic!("expected a log record"),
    };
    assert_eq!(rec.level, "WARN");
    assert_eq!(rec.message, "disk low");
    assert_eq!(rec.timestamp, "1700000000.000");
    assert!(!rec.id.is_empty());
    let store = out.store.expect("log records are always persisted");
    assert_eq!(store.key, rec.id);
    assert_eq!(
        store.value,
        "{\"fields\":\"{}\",\"id\":\"01700000000000000000\",\"level\":\"WARN\",\
         \"message\":\"disk low\",\"target\":\"\",\"timestamp\":\"1700000000.000\"}"
    );
    let line = out.line.expect("log records are always archived");
    assert_eq!(line, format!("{{\"data\":{},\"type\":\"log\"}}\n", store.value));
    let notify = out.notify.expect("a notification fabric is attached");
    assert_eq!(notify.entity, "Log");
    assert_eq!(notify.id, rec.id);
    assert_eq!(notify.record_json, store.value);
    assert_eq!(p.log_count, 1);
}

#[test]
fn scenario_http_span() {
    let mut p = Pipeline::new(true, true, false);
    let mut e = RawEvent::empty();
    e.kind = EventKind::Span;
    e.target = Some("http.request".to_string());
    e.start_time = Some(1000);
    e.end_time = Some(1500);
    e.fields = vec![
        FieldEntry { key: "http.method".to_string(), value: "GET".to_string() },
        FieldEntry { key: "http.route".to_string(), value: "/health".to_string() },
        FieldEntry { key: "http.status_code".to_string(), value: "200".to_string() },
    ];
    let out = p.step(&e, 1700000000000);
    let rec = match out.record {
        Some(RecordOut::Span(rec)) => rec,
        _ => panic!("expected a span record"),
    };
    assert_eq!(rec.duration_ms, 500);
    assert_eq!(rec.start_time, "1.000");
    assert_eq!(rec.end_time, "1.500");
    assert_eq!(rec.level, "INFO");
    assert!(out.notify.is_none());

    let sink = MetricsSink::from_settings(Some("http://collector:4317".to_string()), None, None)
        .expect("an endpoint is configured");
    let export = sink.write_span(&rec);
    assert!(export.init_now);
    let m = export.measure.expect("an HTTP request span is measured");
    assert_eq!(m.method, "GET");
    assert_eq!(m.route, "/health");
    assert_eq!(m.status, "200");
    assert!(!m.is_error);
    assert_eq!(m.duration_ms, 500);
    // the exporter records the duration in seconds
    assert_eq!(m.duration_ms as f64 / 1000.0, 0.5);
}

#[test]
fn scenario_million_logs() {
    let mut p = Pipeline::new(false, false, false);
    let event = log_event("INFO", "tick", 1700000000000);
    let mut report_at_million = None;
    for i in 1..=1000001u64 {
        let out = p.step(&event, 1700000000000);
        match out.status {
            Some(s) => {
                assert_eq!(s.total % 1000, 0);
                assert_eq!(s.total, i);
                if i == 1000000 {
                    report_at_million = Some(s);
                }
            }
            None => assert!(i % 1000 != 0),
        }
    }
    let report = report_at_million.expect("a status report after the 1,000,000th event");
    assert_eq!(report.total, 1000000);
    assert_eq!(report.logs, 1000000);
    assert_eq!(p.log_count, 1000001);
    assert_eq!(p.span_count, 0);
    assert_eq!(p.metric_count, 0);
    // the pipeline is still responsive afterwards
    let out = p.step(&event, 1700000000000);
    assert!(out.record.is_some());
    assert_eq!(p.log_count, 1000002);
}

#[test]
fn negative_span_duration_is_preserved() {
    let mut p = Pipeline::new(true, false, false);
    let mut e = RawEvent::empty();
    e.kind = EventKind::Span;
    e.start_time = Some(600);
    e.end_time = Some(100);
    let out = p.step(&e, 1);
    let rec = match out.record {
        Some(RecordOut::Span(rec)) => rec,
        _ => panic!("expected a span record"),
    };
    assert_eq!(rec.duration_ms, -500);
    let store = out.store.expect("span records are persisted");
    assert!(store.value.contains("\"durationMs\":-500"));
}

#[test]
fn unknown_kind_is_dropped() {
    let mut p = Pipeline::new(true, true, true);
    let e = RawEvent::empty();
    let out = p.step(&e, 1);
    assert!(out.record.is_none());
    assert!(out.store.is_none());
    assert!(out.notify.is_none());
    assert!(out.line.is_none());
    assert!(out.status.is_none());
    assert_eq!(p.log_count, 0);
    assert_eq!(p.span_count, 0);
    assert_eq!(p.metric_count, 0);
}

#[test]
fn span_without_storage_is_counted_but_discarded() {
    let mut p = Pipeline::new(false, true, true);
    let mut e = RawEvent::empty();
    e.kind = EventKind::Span;
    let out = p.step(&e, 1);
    assert!(out.record.is_none());
    assert!(out.store.is_none());
    assert!(out.line.is_none());
    assert_eq!(p.span_count, 1);
}

#[test]
fn metric_record_fields() {
    let mut p = Pipeline::new(false, true, false);
    let mut e = RawEvent::empty();
    e.kind = EventKind::Metric;
    e.name = Some("queue.depth".to_string());
    e.value = Some(42);
    e.timestamp = Some(2500);
    let out = p.step(&e, 1);
    let rec = match out.record {
        Some(RecordOut::Metric(rec)) => rec,
        _ => panic!("expected a metric record"),
    };
    assert_eq!(rec.name, "queue.depth");
    assert_eq!(rec.value, 42);
    assert_eq!(rec.timestamp, "2.500");
    let store = out.store.expect("metric records are persisted");
    assert!(store.value.contains("\"name\":\"queue.depth\""));
    assert!(store.value.contains("\"value\":42"));
}

#[test]
fn status_report_every_thousand() {
    let mut p = Pipeline::new(false, false, false);
    let event = log_event("INFO", "x", 1);
    for i in 1..=1000u64 {
        let out = p.step(&event, 1);
        if i < 1000 {
            assert!(out.status.is_none());
        } else {
            let s = out.status.expect("a report at the thousandth event");
            assert_eq!(s.total, 1000);
            assert_eq!(s.logs, 1000);
            assert_eq!(s.spans, 0);
            assert_eq!(s.metrics, 0);
        }
    }
}

#[test]
fn missing_log_fields_take_defaults() {
    let mut p = Pipeline::new(false, false, false);
    let mut e = RawEvent::empty();
    e.kind = EventKind::Log;
    let out = p.step(&e, 7);
    let rec = match out.record {
        Some(RecordOut::Log(rec)) => rec,
        _ => panic!("expected a log record"),
    };
    assert_eq!(rec.level, "INFO");
    assert_eq!(rec.target, "");
    assert_eq!(rec.message, "");
    assert_eq!(rec.timestamp, "0.000");
}

#[test]
fn record_order_follows_arrival_order() {
    let mut p = Pipeline::new(true, true, false);
    let mut ids = Vec::new();
    for kind in [EventKind::Log, EventKind::Span, EventKind::Metric, EventKind::Log] {
        let mut e = RawEvent::empty();
        e.kind = kind;
        let out = p.step(&e, 5);
        let id = match out.record.unwrap() {
            RecordOut::Log(r) => r.id,
            RecordOut::Span(r) => r.id,
            RecordOut::Metric(r) => r.id,
        };
        ids.push(id);
    }
    for w in ids.windows(2) {
        assert!(w[0] < w[1]);
    }
}
