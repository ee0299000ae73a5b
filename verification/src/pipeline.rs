//! The dispatch pipeline: the single consumer's per-event step.
//!
//! Each inbound event is classified by kind; recognized kinds are counted
//! and normalized into a record carrying a fresh time-ordered identifier,
//! and the step hands back the actions the I/O layer performs in order:
//! persist the record under its identifier, publish a live-update
//! notification when a notification fabric is attached, and append the
//! record's archive line. Span and metric records exist only when their
//! storage target was configured at startup; events of unknown kind are
//! dropped without error. Every thousandth processed event yields a status
//! report. All failures of the performed actions are the I/O layer's to
//! swallow: the step itself never fails, and the loop ends only when the
//! inbound queue closes.

use vstd::prelude::*;
use crate::dates::MAX_EPOCH_MS;
use crate::event::{spec_num_or, EventKind, RawEvent};
use crate::ids::{spec_id, IdGenerator, MAX_ID_MS};
use crate::record::{file_line, log_record_json, metric_record_json, normalize_log,
    normalize_metric, normalize_span, span_record_json, spec_file_line, spec_log_json,
    spec_metric_json, spec_normal_log, spec_normal_metric, spec_normal_span, spec_span_json,
    LogRecord, MetricRecord, SpanRecord};

verus! {

/// A status report is due every this many processed events.
pub const STATUS_INTERVAL: u64 = 1000;

/// A normalized record of any kind.
pub enum RecordOut {
    Log(LogRecord),
    Span(SpanRecord),
    Metric(MetricRecord),
}

/// A durable-store write: the record's JSON under its identifier.
pub struct StoreAction {
    pub key: String,
    pub value: String,
}

/// A live-update notification for real-time viewers.
pub struct NotifyAction {
    pub entity: String,
    pub id: String,
    pub record_json: String,
}

/// The running counters, reported periodically and at shutdown.
pub struct StatusReport {
    pub total: u64,
    pub logs: u64,
    pub spans: u64,
    pub metrics: u64,
}

/// Everything one event's step asks of the I/O layer.
pub struct StepOutput {
    pub record: Option<RecordOut>,
    pub store: Option<StoreAction>,
    pub notify: Option<NotifyAction>,
    /// The record's archive line, ready to append.
    pub line: Option<String>,
    pub status: Option<StatusReport>,
}

/// The pipeline's own state: identifier generator, per-kind counters, and
/// the configuration fixed at startup.
pub struct Pipeline {
    pub ids: IdGenerator,
    pub log_count: u64,
    pub span_count: u64,
    pub metric_count: u64,
    pub span_storage: bool,
    pub metric_storage: bool,
    pub pubsub: bool,
}

impl Pipeline {
    /// The number of processed events.
    pub open spec fn spec_total(self) -> int {
        self.log_count + self.span_count + self.metric_count
    }

    /// The startup configuration and counters are as a step leaves them.
    pub open spec fn spec_config_unchanged(self, o: Pipeline) -> bool {
        &&& self.span_storage == o.span_storage
        &&& self.metric_storage == o.metric_storage
        &&& self.pubsub == o.pubsub
    }

    /// A fresh pipeline: counters at zero, no identifier handed out yet,
    /// span and metric storage and the notification fabric as configured.
    pub fn new(span_storage: bool, metric_storage: bool, pubsub: bool) -> (r: Pipeline)
        ensures
            r.ids.key() == 0,
            r.log_count == 0 && r.span_count == 0 && r.metric_count == 0,
            r.span_storage == span_storage,
            r.metric_storage == metric_storage,
            r.pubsub == pubsub,
    {
        Pipeline {
            ids: IdGenerator::new(),
            log_count: 0,
            span_count: 0,
            metric_count: 0,
            span_storage,
            metric_storage,
            pubsub,
        }
    }

    /// Process one inbound event: classify, count, normalize, and hand back
    /// the persistence, notification, archive and status actions.
    pub fn step(&mut self, event: &RawEvent, now_ms: u64) -> (r: StepOutput)
        requires
            now_ms <= MAX_ID_MS,
            old(self).ids.key() < u64::MAX,
            old(self).spec_total() + 1 < u64::MAX,
            spec_num_or(event.start_time) <= MAX_EPOCH_MS,
            spec_num_or(event.end_time) <= MAX_EPOCH_MS,
        ensures
            final(self).spec_config_unchanged(*old(self)),
    // counting: exactly the event's kind, unknown kinds dropped
            final(self).log_count == old(self).log_count + (
            if event.kind is Log {
                1int
            } else {
                0int
            }),
            final(self).span_count == old(self).span_count + (
            if event.kind is Span {
                1int
            } else {
                0int
            }),
            final(self).metric_count == old(self).metric_count + (
            if event.kind is Metric {
                1int
            } else {
                0int
            }),
    // a log event always yields a record, persisted and archived
            event.kind is Log ==> (r.record matches Some(o) && o matches RecordOut::Log(rec) && {
                &&& spec_normal_log(*event, spec_id(final(self).ids.key()), rec)
                &&& final(self).ids.key() > old(self).ids.key()
                &&& (r.store matches Some(st) && st.key@ == rec.id@ && st.value@ == spec_log_json(
                    rec,
                ))
                &&& (r.line matches Some(l) && l@ == spec_file_line("log"@, spec_log_json(rec)))
                &&& final(self).spec_notify(r, "Log"@, rec.id@, spec_log_json(rec))
            }),
    // a span event yields a record only when span storage was configured
            event.kind is Span && old(self).span_storage ==> (r.record matches Some(o)
                && o matches RecordOut::Span(rec) && {
                &&& spec_normal_span(*event, spec_id(final(self).ids.key()), rec)
                &&& final(self).ids.key() > old(self).ids.key()
                &&& (r.store matches Some(st) && st.key@ == rec.id@ && st.value@ == spec_span_json(
                    rec,
                ))
                &&& (r.line matches Some(l) && l@ == spec_file_line("span"@, spec_span_json(rec)))
                &&& final(self).spec_notify(r, "Span"@, rec.id@, spec_span_json(rec))
            }),
    // a metric event yields a record only when metric storage was configured
            event.kind is Metric && old(self).metric_storage ==> (r.record matches Some(o)
                && o matches RecordOut::Metric(rec) && {
                &&& spec_normal_metric(*event, spec_id(final(self).ids.key()), rec)
                &&& final(self).ids.key() > old(self).ids.key()
                &&& (r.store matches Some(st) && st.key@ == rec.id@ && st.value@
                    == spec_metric_json(rec))
                &&& (r.line matches Some(l) && l@ == spec_file_line(
                    "metric"@,
                    spec_metric_json(rec),
                ))
                &&& final(self).spec_notify(r, "Metric"@, rec.id@, spec_metric_json(rec))
            }),
    // otherwise the event is dropped before any action
            (event.kind is Other || (event.kind is Span && !old(self).span_storage) || (
            event.kind is Metric && !old(self).metric_storage)) ==> {
                &&& r.record is None
                &&& r.store is None
                &&& r.notify is None
                &&& r.line is None
                &&& final(self).ids.key() == old(self).ids.key()
            },
    // a status report exactly at every STATUS_INTERVAL processed events
            (r.status matches Some(s)
                && s.total == final(self).spec_total()
                && s.logs == final(self).log_count
                && s.spans == final(self).span_count
                && s.metrics == final(self).metric_count)
                == (final(self).spec_total() % (STATUS_INTERVAL as int) == 0
                && final(self).spec_total() > 0),
    {
        let mut output: StepOutput = match event.kind {
            EventKind::Log => {
                self.log_count = self.log_count + 1;
                let id = self.ids.next_id(now_ms);
                let rec = normalize_log(event, id);
                let json = log_record_json(&rec);
                let line = file_line("log", json.as_str());
                let notify = self.make_notify("Log", &rec.id, &json);
                let store = StoreAction { key: rec.id.clone(), value: json };
                StepOutput {
                    record: Some(RecordOut::Log(rec)),
                    store: Some(store),
                    notify,
                    line: Some(line),
                    status: None,
                }
            },
            EventKind::Span => {
                self.span_count = self.span_count + 1;
                if self.span_storage {
                    let id = self.ids.next_id(now_ms);
                    let rec = normalize_span(event, id);
                    let json = span_record_json(&rec);
                    let line = file_line("span", json.as_str());
                    let notify = self.make_notify("Span", &rec.id, &json);
                    let store = StoreAction { key: rec.id.clone(), value: json };
                    StepOutput {
                        record: Some(RecordOut::Span(rec)),
                        store: Some(store),
                        notify,
                        line: Some(line),
                        status: None,
                    }
                } else {
                    StepOutput { record: None, store: None, notify: None, line: None, status: None }
                }
            },
            EventKind::Metric => {
                self.metric_count = self.metric_count + 1;
                if self.metric_storage {
                    let id = self.ids.next_id(now_ms);
                    let rec = normalize_metric(event, id);
                    let json = metric_record_json(&rec);
                    let line = file_line("metric", json.as_str());
                    let notify = self.make_notify("Metric", &rec.id, &json);
                    let store = StoreAction { key: rec.id.clone(), value: json };
                    StepOutput {
                        record: Some(RecordOut::Metric(rec)),
                        store: Some(store),
                        notify,
                        line: Some(line),
                        status: None,
                    }
                } else {
                    StepOutput { record: None, store: None, notify: None, line: None, status: None }
                }
            },
            EventKind::Other => {
                StepOutput { record: None, store: None, notify: None, line: None, status: None }
            },
        };
        let total: u64 = self.log_count + self.span_count + self.metric_count;
        if total % STATUS_INTERVAL == 0 && total > 0 {
            output.status = Some(
                StatusReport {
                    total,
                    logs: self.log_count,
                    spans: self.span_count,
                    metrics: self.metric_count,
                },
            );
        }
        output
    }

    /// The step's notification action: present exactly when a notification
    /// fabric is attached, naming the entity kind and the record.
    pub open spec fn spec_notify(
        self,
        r: StepOutput,
        entity: Seq<char>,
        id: Seq<char>,
        json: Seq<char>,
    ) -> bool {
        &&& self.pubsub ==> (r.notify matches Some(n) && n.entity@ == entity && n.id@ == id
            && n.record_json@ == json)
        &&& !self.pubsub ==> r.notify is None
    }

    /// Build the notification action when a fabric is attached.
    fn make_notify(&self, entity: &str, id: &String, json: &String) -> (r: Option<NotifyAction>)
        ensures
            self.pubsub ==> (r matches Some(n) && n.entity@ == entity@ && n.id@ == id@
                && n.record_json@ == json@),
            !self.pubsub ==> r is None,
    {
        if self.pubsub {
            Some(
                NotifyAction {
                    entity: String::from_str(entity),
                    id: id.clone(),
                    record_json: json.clone(),
                },
            )
        } else {
            None
        }
    }
}

} // verus!
