//! Normalized records and their JSON encodings.
//!
//! A raw event becomes exactly one strongly-shaped record: log, span, or
//! metric. Missing string attributes default to the empty string, a missing
//! level to `INFO`, missing numbers to zero. A span's duration is the
//! difference of its end and start times, kept as supplied even when the end
//! precedes the start. Records are encoded as JSON objects with keys in
//! sorted order; the attribute map is serialized to a compact object string
//! and carried as a string member.

use vstd::prelude::*;
use crate::FieldEntry;
use crate::dates::{format_epoch_ms, spec_epoch_string, MAX_EPOCH_MS};
use crate::event::{copy_fields, num_or_zero, spec_inum_or, spec_num_or, spec_str_or, str_or_default,
    RawEvent};
use crate::json::{json_object, json_quote, lemma_json_string_newline_free,
    lemma_newline_count_concat, lemma_newline_free_concat, lemma_newline_free_count,
    newline_count, newline_free, spec_json_object, spec_json_string};
use crate::text::{digit_char, spec_decimal, u64_to_string};

verus! {

/// A normalized log record.
pub struct LogRecord {
    pub id: String,
    pub timestamp: String,
    pub level: String,
    pub target: String,
    pub message: String,
    pub fields: Vec<FieldEntry>,
}

/// A normalized span record.
pub struct SpanRecord {
    pub id: String,
    pub name: String,
    pub target: String,
    pub level: String,
    pub start_time: String,
    pub end_time: String,
    pub duration_ms: i64,
    pub fields: Vec<FieldEntry>,
}

/// A normalized metric record.
pub struct MetricRecord {
    pub id: String,
    pub name: String,
    pub value: i64,
    pub attributes: Vec<FieldEntry>,
    pub timestamp: String,
}

/// Decimal rendering of a signed number: a minus sign and the magnitude.
pub open spec fn spec_i64_string(v: int) -> Seq<char> {
    if v < 0 {
        seq!['-'] + spec_decimal((-v) as nat)
    } else {
        spec_decimal(v as nat)
    }
}

/// Render a signed number in decimal.
pub fn i64_to_string(v: i64) -> (r: String)
    ensures
        r@ == spec_i64_string(v as int),
{
    if v >= 0 {
        u64_to_string(v as u64)
    } else {
        let m: u64 = (-(v as i128)) as u64;
        let mut s = String::from_str("-");
        let digits = u64_to_string(m);
        s.append(digits.as_str());
        proof {
            reveal_strlit("-");
            assert(s@ =~= spec_i64_string(v as int));
        }
        s
    }
}

/// Normalize a log event: permissive defaults, formatted timestamp, the
/// caller-supplied identifier.
pub fn normalize_log(event: &RawEvent, id: String) -> (r: LogRecord)
    ensures
        r.id == id,
        r.timestamp@ == spec_epoch_string(spec_num_or(event.timestamp) as int),
        r.level@ == spec_str_or(event.level, "INFO"@),
        r.target@ == spec_str_or(event.target, Seq::<char>::empty()),
        r.message@ == spec_str_or(event.message, Seq::<char>::empty()),
        r.fields@ == event.fields@,
{
    proof {
        reveal_strlit("");
        assert(""@ =~= Seq::<char>::empty());
    }
    LogRecord {
        id,
        timestamp: format_epoch_ms(num_or_zero(&event.timestamp)),
        level: str_or_default(&event.level, "INFO"),
        target: str_or_default(&event.target, ""),
        message: str_or_default(&event.message, ""),
        fields: copy_fields(&event.fields),
    }
}

/// Normalize a span-completion event. The duration is the signed difference
/// of the supplied end and start times, with no clamping: an end before the
/// start yields a negative duration, kept as a data-quality signal.
pub fn normalize_span(event: &RawEvent, id: String) -> (r: SpanRecord)
    requires
        spec_num_or(event.start_time) <= MAX_EPOCH_MS,
        spec_num_or(event.end_time) <= MAX_EPOCH_MS,
    ensures
        r.id == id,
        r.name@ == spec_str_or(event.name, Seq::<char>::empty()),
        r.target@ == spec_str_or(event.target, Seq::<char>::empty()),
        r.level@ == spec_str_or(event.level, "INFO"@),
        r.start_time@ == spec_epoch_string(spec_num_or(event.start_time) as int),
        r.end_time@ == spec_epoch_string(spec_num_or(event.end_time) as int),
        r.duration_ms == spec_num_or(event.end_time) - spec_num_or(event.start_time),
        r.fields@ == event.fields@,
{
    proof {
        reveal_strlit("");
        assert(""@ =~= Seq::<char>::empty());
    }
    let start = num_or_zero(&event.start_time);
    let end = num_or_zero(&event.end_time);
    let duration: i64 = (end as i64) - (start as i64);
    SpanRecord {
        id,
        name: str_or_default(&event.name, ""),
        target: str_or_default(&event.target, ""),
        level: str_or_default(&event.level, "INFO"),
        start_time: format_epoch_ms(start),
        end_time: format_epoch_ms(end),
        duration_ms: duration,
        fields: copy_fields(&event.fields),
    }
}

/// Normalize a metric event: name, numeric value, attribute map, formatted
/// timestamp.
pub fn normalize_metric(event: &RawEvent, id: String) -> (r: MetricRecord)
    ensures
        r.id == id,
        r.name@ == spec_str_or(event.name, Seq::<char>::empty()),
        r.value == spec_inum_or(event.value),
        r.attributes@ == event.fields@,
        r.timestamp@ == spec_epoch_string(spec_num_or(event.timestamp) as int),
{
    proof {
        reveal_strlit("");
        assert(""@ =~= Seq::<char>::empty());
    }
    let value: i64 = match &event.value {
        Option::Some(v) => *v,
        Option::None => 0,
    };
    MetricRecord {
        id,
        name: str_or_default(&event.name, ""),
        value,
        attributes: copy_fields(&event.fields),
        timestamp: format_epoch_ms(num_or_zero(&event.timestamp)),
    }
}

/// What normalization makes of a log event, given the record's identifier.
pub open spec fn spec_normal_log(event: RawEvent, id: Seq<char>, r: LogRecord) -> bool {
    &&& r.id@ == id
    &&& r.timestamp@ == spec_epoch_string(spec_num_or(event.timestamp) as int)
    &&& r.level@ == spec_str_or(event.level, "INFO"@)
    &&& r.target@ == spec_str_or(event.target, Seq::<char>::empty())
    &&& r.message@ == spec_str_or(event.message, Seq::<char>::empty())
    &&& r.fields@ == event.fields@
}

/// What normalization makes of a span event, given the record's identifier.
pub open spec fn spec_normal_span(event: RawEvent, id: Seq<char>, r: SpanRecord) -> bool {
    &&& r.id@ == id
    &&& r.name@ == spec_str_or(event.name, Seq::<char>::empty())
    &&& r.target@ == spec_str_or(event.target, Seq::<char>::empty())
    &&& r.level@ == spec_str_or(event.level, "INFO"@)
    &&& r.start_time@ == spec_epoch_string(spec_num_or(event.start_time) as int)
    &&& r.end_time@ == spec_epoch_string(spec_num_or(event.end_time) as int)
    &&& r.duration_ms == spec_num_or(event.end_time) - spec_num_or(event.start_time)
    &&& r.fields@ == event.fields@
}

/// What normalization makes of a metric event, given the record's
/// identifier.
pub open spec fn spec_normal_metric(event: RawEvent, id: Seq<char>, r: MetricRecord) -> bool {
    &&& r.id@ == id
    &&& r.name@ == spec_str_or(event.name, Seq::<char>::empty())
    &&& r.value == spec_inum_or(event.value)
    &&& r.attributes@ == event.fields@
    &&& r.timestamp@ == spec_epoch_string(spec_num_or(event.timestamp) as int)
}

/// The JSON encoding of a log record, keys in sorted order.
pub open spec fn spec_log_json(r: LogRecord) -> Seq<char> {
    "{\"fields\":"@ + spec_json_string(spec_json_object(r.fields@)) + ",\"id\":"@
        + spec_json_string(r.id@) + ",\"level\":"@ + spec_json_string(r.level@) + ",\"message\":"@
        + spec_json_string(r.message@) + ",\"target\":"@ + spec_json_string(r.target@)
        + ",\"timestamp\":"@ + spec_json_string(r.timestamp@) + "}"@
}

/// Encode a log record as JSON.
pub fn log_record_json(r: &LogRecord) -> (out: String)
    ensures
        out@ == spec_log_json(*r),
{
    let mut s = String::from_str("{\"fields\":");
    let obj = json_object(&r.fields);
    let objq = json_quote(obj.as_str());
    s.append(objq.as_str());
    s.append(",\"id\":");
    let idq = json_quote(r.id.as_str());
    s.append(idq.as_str());
    s.append(",\"level\":");
    let lq = json_quote(r.level.as_str());
    s.append(lq.as_str());
    s.append(",\"message\":");
    let mq = json_quote(r.message.as_str());
    s.append(mq.as_str());
    s.append(",\"target\":");
    let tq = json_quote(r.target.as_str());
    s.append(tq.as_str());
    s.append(",\"timestamp\":");
    let tsq = json_quote(r.timestamp.as_str());
    s.append(tsq.as_str());
    s.append("}");
    proof {
        assert(s@ =~= spec_log_json(*r));
    }
    s
}

/// The JSON encoding of a span record, keys in sorted order.
pub open spec fn spec_span_json(r: SpanRecord) -> Seq<char> {
    "{\"durationMs\":"@ + spec_i64_string(r.duration_ms as int) + ",\"endTime\":"@
        + spec_json_string(r.end_time@) + ",\"fields\":"@ + spec_json_string(
        spec_json_object(r.fields@),
    ) + ",\"id\":"@ + spec_json_string(r.id@) + ",\"level\":"@ + spec_json_string(r.level@)
        + ",\"name\":"@ + spec_json_string(r.name@) + ",\"startTime\":"@ + spec_json_string(
        r.start_time@,
    ) + ",\"target\":"@ + spec_json_string(r.target@) + "}"@
}

/// Encode a span record as JSON.
pub fn span_record_json(r: &SpanRecord) -> (out: String)
    ensures
        out@ == spec_span_json(*r),
{
    let mut s = String::from_str("{\"durationMs\":");
    let dur = i64_to_string(r.duration_ms);
    s.append(dur.as_str());
    s.append(",\"endTime\":");
    let eq = json_quote(r.end_time.as_str());
    s.append(eq.as_str());
    s.append(",\"fields\":");
    let obj = json_object(&r.fields);
    let objq = json_quote(obj.as_str());
    s.append(objq.as_str());
    s.append(",\"id\":");
    let idq = json_quote(r.id.as_str());
    s.append(idq.as_str());
    s.append(",\"level\":");
    let lq = json_quote(r.level.as_str());
    s.append(lq.as_str());
    s.append(",\"name\":");
    let nq = json_quote(r.name.as_str());
    s.append(nq.as_str());
    s.append(",\"startTime\":");
    let sq = json_quote(r.start_time.as_str());
    s.append(sq.as_str());
    s.append(",\"target\":");
    let tq = json_quote(r.target.as_str());
    s.append(tq.as_str());
    s.append("}");
    proof {
        assert(s@ =~= spec_span_json(*r));
    }
    s
}

/// The JSON encoding of a metric record, keys in sorted order.
pub open spec fn spec_metric_json(r: MetricRecord) -> Seq<char> {
    "{\"attributes\":"@ + spec_json_string(spec_json_object(r.attributes@)) + ",\"id\":"@
        + spec_json_string(r.id@) + ",\"name\":"@ + spec_json_string(r.name@) + ",\"timestamp\":"@
        + spec_json_string(r.timestamp@) + ",\"value\":"@ + spec_i64_string(r.value as int) + "}"@
}

/// Encode a metric record as JSON.
pub fn metric_record_json(r: &MetricRecord) -> (out: String)
    ensures
        out@ == spec_metric_json(*r),
{
    let mut s = String::from_str("{\"attributes\":");
    let obj = json_object(&r.attributes);
    let objq = json_quote(obj.as_str());
    s.append(objq.as_str());
    s.append(",\"id\":");
    let idq = json_quote(r.id.as_str());
    s.append(idq.as_str());
    s.append(",\"name\":");
    let nq = json_quote(r.name.as_str());
    s.append(nq.as_str());
    s.append(",\"timestamp\":");
    let tsq = json_quote(r.timestamp.as_str());
    s.append(tsq.as_str());
    s.append(",\"value\":");
    let vs = i64_to_string(r.value);
    s.append(vs.as_str());
    s.append("}");
    proof {
        assert(s@ =~= spec_metric_json(*r));
    }
    s
}

/// One line of the newline-delimited archive format: the record under
/// `data`, its kind under `type`, a terminating newline.
pub open spec fn spec_file_line(kind: Seq<char>, record_json: Seq<char>) -> Seq<char> {
    "{\"data\":"@ + record_json + ",\"type\":\""@ + kind + "\"}\n"@
}

/// Encode one archive line for a record of the given kind.
pub fn file_line(kind: &str, record_json: &str) -> (out: String)
    ensures
        out@ == spec_file_line(kind@, record_json@),
{
    let mut s = String::from_str("{\"data\":");
    s.append(record_json);
    s.append(",\"type\":\"");
    s.append(kind);
    s.append("\"}\n");
    proof {
        assert(s@ =~= spec_file_line(kind@, record_json@));
    }
    s
}

pub proof fn lemma_decimal_newline_free(n: nat)
    ensures
        newline_free(spec_decimal(n)),
    decreases n,
{
    if n < 10 {
    } else {
        lemma_decimal_newline_free(n / 10);
        lemma_newline_free_concat(spec_decimal(n / 10), seq![digit_char(n % 10)]);
    }
}

pub proof fn lemma_i64_string_newline_free(v: int)
    ensures
        newline_free(spec_i64_string(v)),
{
    if v < 0 {
        lemma_decimal_newline_free((-v) as nat);
        lemma_newline_free_concat(seq!['-'], spec_decimal((-v) as nat));
    } else {
        lemma_decimal_newline_free(v as nat);
    }
}

/// A log record's JSON holds no newline: every string member is escaped.
pub proof fn lemma_log_json_newline_free(r: LogRecord)
    ensures
        newline_free(spec_log_json(r)),
{
    reveal_strlit("{\"fields\":");
    reveal_strlit(",\"id\":");
    reveal_strlit(",\"level\":");
    reveal_strlit(",\"message\":");
    reveal_strlit(",\"target\":");
    reveal_strlit(",\"timestamp\":");
    reveal_strlit("}");
    lemma_json_string_newline_free(spec_json_object(r.fields@));
    lemma_json_string_newline_free(r.id@);
    lemma_json_string_newline_free(r.level@);
    lemma_json_string_newline_free(r.message@);
    lemma_json_string_newline_free(r.target@);
    lemma_json_string_newline_free(r.timestamp@);
    let p1 = "{\"fields\":"@ + spec_json_string(spec_json_object(r.fields@));
    lemma_newline_free_concat("{\"fields\":"@, spec_json_string(spec_json_object(r.fields@)));
    let p2 = p1 + ",\"id\":"@;
    lemma_newline_free_concat(p1, ",\"id\":"@);
    let p3 = p2 + spec_json_string(r.id@);
    lemma_newline_free_concat(p2, spec_json_string(r.id@));
    let p4 = p3 + ",\"level\":"@;
    lemma_newline_free_concat(p3, ",\"level\":"@);
    let p5 = p4 + spec_json_string(r.level@);
    lemma_newline_free_concat(p4, spec_json_string(r.level@));
    let p6 = p5 + ",\"message\":"@;
    lemma_newline_free_concat(p5, ",\"message\":"@);
    let p7 = p6 + spec_json_string(r.message@);
    lemma_newline_free_concat(p6, spec_json_string(r.message@));
    let p8 = p7 + ",\"target\":"@;
    lemma_newline_free_concat(p7, ",\"target\":"@);
    let p9 = p8 + spec_json_string(r.target@);
    lemma_newline_free_concat(p8, spec_json_string(r.target@));
    let p10 = p9 + ",\"timestamp\":"@;
    lemma_newline_free_concat(p9, ",\"timestamp\":"@);
    let p11 = p10 + spec_json_string(r.timestamp@);
    lemma_newline_free_concat(p10, spec_json_string(r.timestamp@));
    lemma_newline_free_concat(p11, "}"@);
}

/// A span record's JSON holds no newline.
pub proof fn lemma_span_json_newline_free(r: SpanRecord)
    ensures
        newline_free(spec_span_json(r)),
{
    reveal_strlit("{\"durationMs\":");
    reveal_strlit(",\"endTime\":");
    reveal_strlit(",\"fields\":");
    reveal_strlit(",\"id\":");
    reveal_strlit(",\"level\":");
    reveal_strlit(",\"name\":");
    reveal_strlit(",\"startTime\":");
    reveal_strlit(",\"target\":");
    reveal_strlit("}");
    lemma_i64_string_newline_free(r.duration_ms as int);
    lemma_json_string_newline_free(r.end_time@);
    lemma_json_string_newline_free(spec_json_object(r.fields@));
    lemma_json_string_newline_free(r.id@);
    lemma_json_string_newline_free(r.level@);
    lemma_json_string_newline_free(r.name@);
    lemma_json_string_newline_free(r.start_time@);
    lemma_json_string_newline_free(r.target@);
    let p1 = "{\"durationMs\":"@ + spec_i64_string(r.duration_ms as int);
    lemma_newline_free_concat("{\"durationMs\":"@, spec_i64_string(r.duration_ms as int));
    let p2 = p1 + ",\"endTime\":"@;
    lemma_newline_free_concat(p1, ",\"endTime\":"@);
    let p3 = p2 + spec_json_string(r.end_time@);
    lemma_newline_free_concat(p2, spec_json_string(r.end_time@));
    let p4 = p3 + ",\"fields\":"@;
    lemma_newline_free_concat(p3, ",\"fields\":"@);
    let p5 = p4 + spec_json_string(spec_json_object(r.fields@));
    lemma_newline_free_concat(p4, spec_json_string(spec_json_object(r.fields@)));
    let p6 = p5 + ",\"id\":"@;
    lemma_newline_free_concat(p5, ",\"id\":"@);
    let p7 = p6 + spec_json_string(r.id@);
    lemma_newline_free_concat(p6, spec_json_string(r.id@));
    let p8 = p7 + ",\"level\":"@;
    lemma_newline_free_concat(p7, ",\"level\":"@);
    let p9 = p8 + spec_json_string(r.level@);
    lemma_newline_free_concat(p8, spec_json_string(r.level@));
    let p10 = p9 + ",\"name\":"@;
    lemma_newline_free_concat(p9, ",\"name\":"@);
    let p11 = p10 + spec_json_string(r.name@);
    lemma_newline_free_concat(p10, spec_json_string(r.name@));
    let p12 = p11 + ",\"startTime\":"@;
    lemma_newline_free_concat(p11, ",\"startTime\":"@);
    let p13 = p12 + spec_json_string(r.start_time@);
    lemma_newline_free_concat(p12, spec_json_string(r.start_time@));
    let p14 = p13 + ",\"target\":"@;
    lemma_newline_free_concat(p13, ",\"target\":"@);
    let p15 = p14 + spec_json_string(r.target@);
    lemma_newline_free_concat(p14, spec_json_string(r.target@));
    lemma_newline_free_concat(p15, "}"@);
}

/// A metric record's JSON holds no newline.
pub proof fn lemma_metric_json_newline_free(r: MetricRecord)
    ensures
        newline_free(spec_metric_json(r)),
{
    reveal_strlit("{\"attributes\":");
    reveal_strlit(",\"id\":");
    reveal_strlit(",\"name\":");
    reveal_strlit(",\"timestamp\":");
    reveal_strlit(",\"value\":");
    reveal_strlit("}");
    lemma_json_string_newline_free(spec_json_object(r.attributes@));
    lemma_json_string_newline_free(r.id@);
    lemma_json_string_newline_free(r.name@);
    lemma_json_string_newline_free(r.timestamp@);
    lemma_i64_string_newline_free(r.value as int);
    let p1 = "{\"attributes\":"@ + spec_json_string(spec_json_object(r.attributes@));
    lemma_newline_free_concat("{\"attributes\":"@, spec_json_string(spec_json_object(r.attributes@)));
    let p2 = p1 + ",\"id\":"@;
    lemma_newline_free_concat(p1, ",\"id\":"@);
    let p3 = p2 + spec_json_string(r.id@);
    lemma_newline_free_concat(p2, spec_json_string(r.id@));
    let p4 = p3 + ",\"name\":"@;
    lemma_newline_free_concat(p3, ",\"name\":"@);
    let p5 = p4 + spec_json_string(r.name@);
    lemma_newline_free_concat(p4, spec_json_string(r.name@));
    let p6 = p5 + ",\"timestamp\":"@;
    lemma_newline_free_concat(p5, ",\"timestamp\":"@);
    let p7 = p6 + spec_json_string(r.timestamp@);
    lemma_newline_free_concat(p6, spec_json_string(r.timestamp@));
    let p8 = p7 + ",\"value\":"@;
    lemma_newline_free_concat(p7, ",\"value\":"@);
    let p9 = p8 + spec_i64_string(r.value as int);
    lemma_newline_free_concat(p8, spec_i64_string(r.value as int));
    lemma_newline_free_concat(p9, "}"@);
}

/// One archive line is exactly one line: it ends with a newline, and that
/// newline is its only one.
pub proof fn lemma_file_line_one_line(kind: Seq<char>, record_json: Seq<char>)
    requires
        newline_free(kind),
        newline_free(record_json),
    ensures
        newline_count(spec_file_line(kind, record_json)) == 1,
        spec_file_line(kind, record_json).len() > 0,
        spec_file_line(kind, record_json).last() == '\n',
{
    reveal_strlit("{\"data\":");
    reveal_strlit(",\"type\":\"");
    reveal_strlit("\"}\n");
    let tail = "\"}\n"@;
    assert(tail =~= seq!['"', '}', '\n']);
    assert(seq!['"', '}', '\n'].skip(1) =~= seq!['}', '\n']);
    assert(seq!['}', '\n'].skip(1) =~= seq!['\n']);
    assert(seq!['\n'].skip(1) =~= Seq::<char>::empty());
    assert(newline_count(Seq::<char>::empty()) == 0);
    assert(newline_count(seq!['\n'].skip(1)) == 0);
    assert(newline_count(seq!['\n']) == 1);
    assert(newline_count(seq!['}', '\n']) == 1);
    assert(newline_count(tail) == 1);
    lemma_newline_free_count("{\"data\":"@);
    lemma_newline_free_count(record_json);
    lemma_newline_free_count(",\"type\":\""@);
    lemma_newline_free_count(kind);
    let p1 = "{\"data\":"@ + record_json;
    lemma_newline_count_concat("{\"data\":"@, record_json);
    let p2 = p1 + ",\"type\":\""@;
    lemma_newline_count_concat(p1, ",\"type\":\""@);
    let p3 = p2 + kind;
    lemma_newline_count_concat(p2, kind);
    lemma_newline_count_concat(p3, tail);
    let line = spec_file_line(kind, record_json);
    assert(line =~= p3 + tail);
    assert(line.last() == tail[2]);
}

/// Writing the same record twice appends its archive line twice: the file
/// grows by two newline-terminated lines, for the sink deduplicates
/// nothing and no line holds an interior newline.
pub proof fn lemma_duplicate_write_two_lines(kind: Seq<char>, record_json: Seq<char>)
    requires
        newline_free(kind),
        newline_free(record_json),
    ensures
        newline_count(spec_file_line(kind, record_json) + spec_file_line(kind, record_json)) == 2,
{
    lemma_file_line_one_line(kind, record_json);
    lemma_newline_count_concat(
        spec_file_line(kind, record_json),
        spec_file_line(kind, record_json),
    );
}

} // verus!
