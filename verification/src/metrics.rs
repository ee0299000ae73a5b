//! The metrics-export sink's decision logic, as a verified state machine.
//!
//! The sink derives HTTP request metrics from span records. It exists only
//! when an export endpoint is configured. Its export connection is
//! established lazily: the first span whose target is the HTTP-request
//! marker asks the I/O layer to initialize, and spans with any other target
//! never do. For a matching span the sink extracts method, route, status
//! code and error flag from the record's attribute map with permissive
//! defaults, and asks for one request-count increment, one duration
//! observation, and — exactly when the error flag is set — one error-count
//! increment.

use vstd::prelude::*;
use crate::event::{lookup_field, spec_lookup};
use crate::record::SpanRecord;

verus! {

/// A span whose target equals this marker is an HTTP request span.
pub open spec fn spec_is_http_request(r: SpanRecord) -> bool {
    r.target@ == "http.request"@
}

/// The measurements one HTTP request span contributes.
pub struct SpanMeasure {
    pub method: String,
    pub route: String,
    pub status: String,
    /// The error counter is incremented exactly when this is set.
    pub is_error: bool,
    /// The observed duration, in milliseconds; the exporter records it in
    /// seconds.
    pub duration_ms: i64,
}

/// What one span write asks of the I/O layer.
pub struct SpanExport {
    /// Establish the export connection and instruments now.
    pub init_now: bool,
    /// The measurements to record, present exactly for HTTP request spans.
    pub measure: Option<SpanMeasure>,
}

/// The metrics-export sink's configuration and initialization state.
pub struct MetricsSink {
    pub endpoint: String,
    pub service_name: String,
    pub metrics_enabled: bool,
    pub initialized: bool,
}

impl MetricsSink {
    /// Build the sink from host configuration values: no sink at all
    /// without a non-empty endpoint, a fixed default service name, export
    /// enabled by default.
    pub fn from_settings(
        endpoint: Option<String>,
        service_name: Option<String>,
        metrics: Option<bool>,
    ) -> (r: Option<MetricsSink>)
        ensures
            (r is Some) == (endpoint matches Some(e) && e@.len() > 0),
            r matches Some(s) ==> {
                &&& endpoint matches Some(e) && s.endpoint == e
                &&& s.service_name@ == (match service_name {
                    Some(n) => n@,
                    None => "yeti"@,
                })
                &&& s.metrics_enabled == (match metrics {
                    Some(b) => b,
                    None => true,
                })
                &&& !s.initialized
            },
    {
        match endpoint {
            Option::Some(e) => {
                if e.as_str().unicode_len() == 0 {
                    None
                } else {
                    let service = match service_name {
                        Option::Some(n) => n,
                        Option::None => String::from_str("yeti"),
                    };
                    let enabled = match metrics {
                        Option::Some(b) => b,
                        Option::None => true,
                    };
                    Some(
                        MetricsSink {
                            endpoint: e,
                            service_name: service,
                            metrics_enabled: enabled,
                            initialized: false,
                        },
                    )
                }
            },
            Option::None => None,
        }
    }

    /// Decide what a span contributes. Spans whose target is not the
    /// HTTP-request marker contribute nothing and never trigger
    /// initialization; matching spans trigger initialization once, while
    /// export is enabled, and contribute one measurement set.
    pub fn write_span(&self, record: &SpanRecord) -> (r: SpanExport)
        ensures
            r.init_now == (spec_is_http_request(*record) && self.metrics_enabled
                && !self.initialized),
            !spec_is_http_request(*record) ==> r.measure is None,
            spec_is_http_request(*record) ==> (r.measure matches Some(m) && {
                &&& m.method@ == (match spec_lookup(record.fields@, "http.method"@) {
                    Some(v) => v,
                    None => "UNKNOWN"@,
                })
                &&& m.route@ == (match spec_lookup(record.fields@, "http.route"@) {
                    Some(v) => v,
                    None => "/"@,
                })
                &&& m.status@ == (match spec_lookup(record.fields@, "http.status_code"@) {
                    Some(v) => v,
                    None => "0"@,
                })
                &&& m.is_error == (spec_lookup(record.fields@, "status"@) == Some("ERROR"@))
                &&& m.duration_ms == record.duration_ms
            }),
    {
        let marker = String::from_str("http.request");
        if !record.target.eq(&marker) {
            return SpanExport { init_now: false, measure: None };
        }
        let method = match lookup_field(&record.fields, "http.method") {
            Option::Some(v) => v,
            Option::None => String::from_str("UNKNOWN"),
        };
        let route = match lookup_field(&record.fields, "http.route") {
            Option::Some(v) => v,
            Option::None => String::from_str("/"),
        };
        let status = match lookup_field(&record.fields, "http.status_code") {
            Option::Some(v) => v,
            Option::None => String::from_str("0"),
        };
        let is_error = match lookup_field(&record.fields, "status") {
            Option::Some(v) => v.eq(&String::from_str("ERROR")),
            Option::None => false,
        };
        SpanExport {
            init_now: self.metrics_enabled && !self.initialized,
            measure: Some(
                SpanMeasure {
                    method,
                    route,
                    status,
                    is_error,
                    duration_ms: record.duration_ms,
                },
            ),
        }
    }

    /// Record that the I/O layer established the export connection; further
    /// spans no longer ask for initialization.
    pub fn note_initialized(&mut self)
        ensures
            final(self).initialized,
            final(self).endpoint == old(self).endpoint,
            final(self).service_name == old(self).service_name,
            final(self).metrics_enabled == old(self).metrics_enabled,
    {
        self.initialized = true;
    }
}

} // verus!
