use telemetry_pipeline::filesink::{should_delete, FileSink, DEFAULT_MAX_FILE_SIZE,
    DEFAULT_RETENTION_DAYS, FLUSH_INTERVAL};
use telemetry_pipeline::metrics::MetricsSink;
use telemetry_pipeline::record::{file_line, span_record_json, SpanRecord};
use telemetry_pipeline::FieldEntry;

fn span_record(target: &str, fields: Vec<FieldEntry>) -> SpanRecord {
    SpanRecord {
        id: "01".to_string(),
        name: "req".to_string(),
        target: target.to_string(),
        level: "INFO".to_string(),
        start_time: "1.000".to_string(),
        end_time: "1.500".to_string(),
        duration_ms: 500,
        fields,
    }
}

#[test]
fn rotation_on_day_change_names_a_new_file() {
    let mut sink = FileSink::new(0);
    assert_eq!(sink.max_file_size, DEFAULT_MAX_FILE_SIZE);
    assert_eq!(sink.retention_days, DEFAULT_RETENTION_DAYS);
    sink.apply_rotation(0, Some(0));
    let plan = sink.plan_write(0);
    assert!(!plan.rotate);
    assert!(plan.file_name.is_none());
    assert!(plan.retention_cutoff.is_none());
    sink.note_appended(10);
    // the next calendar day rotates onto a differently-named file
    let plan = sink.plan_write(1);
    assert!(plan.rotate);
    assert_eq!(plan.file_name.as_deref(), Some("telemetry-1970-01-02.jsonl"));
    assert_ne!(plan.file_name.as_deref(), Some("telemetry-1970-01-01.jsonl"));
    sink.apply_rotation(1, Some(0));
    assert_eq!(sink.current_day, 1);
    assert_eq!(sink.current_size, 0);
}

#[test]
fn size_rotation_within_a_day_reuses_the_name() {
    let mut sink = FileSink {
        current_day: 5,
        current_size: 0,
        max_file_size: 100,
        retention_days: 7,
        write_count: 0,
        file_open: true,
    };
    sink.note_appended(100);
    let plan = sink.plan_write(5);
    assert!(plan.rotate);
    // the size threshold alone never starts a differently-named file
    assert_eq!(plan.file_name.as_deref(), Some("telemetry-1970-01-06.jsonl"));
    // reopening the same file preserves its size, as after a restart
    sink.apply_rotation(5, Some(100));
    assert_eq!(sink.current_size, 100);
    assert_eq!(sink.current_day, 5);
}

#[test]
fn failed_open_leaves_the_sink_degraded() {
    let mut sink = FileSink::new(3);
    sink.apply_rotation(3, None);
    assert!(!sink.file_open);
    assert_eq!(sink.current_size, 0);
}

#[test]
fn retention_deletes_only_strictly_older_files() {
    // eight days old: outside the seven-day window
    assert!(should_delete(0, 8, 7));
    // exactly the window's age is kept
    assert!(!should_delete(1, 8, 7));
    assert!(!should_delete(8, 8, 7));
    // a sweep happens only at rotation: a non-rotating plan carries no cutoff
    let mut sink = FileSink::new(100);
    sink.apply_rotation(100, Some(0));
    assert!(sink.plan_write(100).retention_cutoff.is_none());
    let plan = sink.plan_write(101);
    assert_eq!(plan.retention_cutoff, Some(94));
}

#[test]
fn flush_every_hundred_writes() {
    let mut sink = FileSink::new(0);
    sink.apply_rotation(0, Some(0));
    for i in 1..=(2 * FLUSH_INTERVAL) {
        let flush = sink.note_appended(1);
        assert_eq!(flush, i % FLUSH_INTERVAL == 0);
    }
    assert_eq!(sink.write_count, 200);
    assert_eq!(sink.current_size, 200);
}

#[test]
fn duplicate_records_make_two_lines() {
    let rec = span_record("db.query", Vec::new());
    let json = span_record_json(&rec);
    let line1 = file_line("span", &json);
    let line2 = file_line("span", &json);
    assert_eq!(line1, line2);
    let appended = format!("{}{}", line1, line2);
    assert_eq!(appended.matches('\n').count(), 2);
    assert!(line1.ends_with('\n'));
    assert!(!line1[..line1.len() - 1].contains('\n'));
}

#[test]
fn non_http_span_never_initializes_export() {
    let sink = MetricsSink::from_settings(Some("http://collector:4317".to_string()), None, None)
        .unwrap();
    let export = sink.write_span(&span_record("db.query", Vec::new()));
    assert!(!export.init_now);
    assert!(export.measure.is_none());
}

#[test]
fn http_error_span_counts_request_and_error_once() {
    let mut sink = MetricsSink::from_settings(Some("http://collector:4317".to_string()), None, None)
        .unwrap();
    let rec = span_record(
        "http.request",
        vec![
            FieldEntry { key: "http.method".to_string(), value: "POST".to_string() },
            FieldEntry { key: "http.status_code".to_string(), value: "500".to_string() },
            FieldEntry { key: "status".to_string(), value: "ERROR".to_string() },
        ],
    );
    let export = sink.write_span(&rec);
    assert!(export.init_now);
    let m = export.measure.expect("one measurement set for one span");
    assert_eq!(m.method, "POST");
    assert_eq!(m.route, "/");
    assert_eq!(m.status, "500");
    assert!(m.is_error);
    // once initialized, later spans no longer ask for initialization
    sink.note_initialized();
    let export = sink.write_span(&rec);
    assert!(!export.init_now);
    assert!(export.measure.is_some());
}

#[test]
fn attribute_lookup_takes_the_first_entry() {
    let sink = MetricsSink::from_settings(Some("http://c:4317".to_string()), None, None).unwrap();
    let rec = span_record(
        "http.request",
        vec![
            FieldEntry { key: "status".to_string(), value: "ERROR".to_string() },
            FieldEntry { key: "status".to_string(), value: "OK".to_string() },
        ],
    );
    let m = sink.write_span(&rec).measure.unwrap();
    assert!(m.is_error);
    assert_eq!(m.method, "UNKNOWN");
    assert_eq!(m.route, "/");
    assert_eq!(m.status, "0");
}

#[test]
fn export_configuration_defaults() {
    assert!(MetricsSink::from_settings(None, None, None).is_none());
    assert!(MetricsSink::from_settings(Some(String::new()), None, None).is_none());
    let sink = MetricsSink::from_settings(Some("http://c:4317".to_string()), None, None).unwrap();
    assert_eq!(sink.endpoint, "http://c:4317");
    assert_eq!(sink.service_name, "yeti");
    assert!(sink.metrics_enabled);
    assert!(!sink.initialized);
    let sink = MetricsSink::from_settings(
        Some("http://c:4317".to_string()),
        Some("svc".to_string()),
        Some(false),
    )
    .unwrap();
    assert_eq!(sink.service_name, "svc");
    assert!(!sink.metrics_enabled);
    // disabled export never asks for initialization
    let export = sink.write_span(&span_record("http.request", Vec::new()));
    assert!(!export.init_now);
}
