//! The raw event envelope delivered by the host.
//!
//! Events arrive as a kind discriminant with loosely-typed, optional,
//! kind-specific attributes; unknown or missing attributes are tolerated and
//! replaced by permissive defaults during normalization. Free-form extra
//! attributes travel as an ordered key-value map.

use vstd::prelude::*;
use crate::FieldEntry;

verus! {

/// The kind discriminant of a raw event; kinds other than log, span and
/// metric are dropped by the pipeline.
pub enum EventKind {
    Log,
    Span,
    Metric,
    Other,
}

/// A raw telemetry event, as delivered by the host's instrumentation layer.
pub struct RawEvent {
    pub kind: EventKind,
    pub level: Option<String>,
    pub target: Option<String>,
    pub message: Option<String>,
    pub name: Option<String>,
    pub start_time: Option<u64>,
    pub end_time: Option<u64>,
    pub value: Option<i64>,
    pub timestamp: Option<u64>,
    pub fields: Vec<FieldEntry>,
}

impl RawEvent {
    /// An event with kind `Other` and nothing set: the base for builders and
    /// tests.
    pub fn empty() -> (r: RawEvent)
        ensures
            r.kind is Other,
            r.level is None,
            r.target is None,
            r.message is None,
            r.name is None,
            r.start_time is None,
            r.end_time is None,
            r.value is None,
            r.timestamp is None,
            r.fields@.len() == 0,
    {
        RawEvent {
            kind: EventKind::Other,
            level: None,
            target: None,
            message: None,
            name: None,
            start_time: None,
            end_time: None,
            value: None,
            timestamp: None,
            fields: Vec::new(),
        }
    }
}

/// The view of an optional string attribute under a default.
pub open spec fn spec_str_or(o: Option<String>, d: Seq<char>) -> Seq<char> {
    match o {
        Option::Some(s) => s@,
        Option::None => d,
    }
}

/// The value of an optional numeric attribute, zero by default.
pub open spec fn spec_num_or(o: Option<u64>) -> u64 {
    match o {
        Option::Some(n) => n,
        Option::None => 0,
    }
}

/// The value of an optional signed numeric attribute, zero by default.
pub open spec fn spec_inum_or(o: Option<i64>) -> i64 {
    match o {
        Option::Some(n) => n,
        Option::None => 0,
    }
}

/// Extract an optional string attribute, or the default.
pub fn str_or_default(o: &Option<String>, d: &str) -> (r: String)
    ensures
        r@ == spec_str_or(*o, d@),
{
    match o {
        Option::Some(s) => s.clone(),
        Option::None => String::from_str(d),
    }
}

/// Extract an optional numeric attribute, or zero.
pub fn num_or_zero(o: &Option<u64>) -> (r: u64)
    ensures
        r == spec_num_or(*o),
{
    match o {
        Option::Some(n) => *n,
        Option::None => 0,
    }
}

/// The value of the first entry of an attribute map with the given key.
pub open spec fn spec_lookup(fs: Seq<FieldEntry>, key: Seq<char>) -> Option<Seq<char>>
    decreases fs.len(),
{
    if fs.len() == 0 {
        Option::None
    } else if fs[0].key@ == key {
        Option::Some(fs[0].value@)
    } else {
        spec_lookup(fs.skip(1), key)
    }
}

/// Look up the first entry of an attribute map with the given key.
pub fn lookup_field(fields: &Vec<FieldEntry>, key: &str) -> (r: Option<String>)
    ensures
        match r {
            Option::Some(v) => spec_lookup(fields@, key@) == Option::Some(v@),
            Option::None => spec_lookup(fields@, key@) is None,
        },
{
    let k = String::from_str(key);
    let n = fields.len();
    proof {
        assert(fields@.skip(0) =~= fields@);
    }
    let mut i: usize = 0;
    while i < n
        invariant
            k@ == key@,
            n == fields@.len(),
            i <= n,
            spec_lookup(fields@, key@) == spec_lookup(fields@.skip(i as int), key@),
        decreases n - i,
    {
        proof {
            assert(fields@.skip(i as int)[0] == fields@[i as int]);
        }
        if fields[i].key.eq(&k) {
            return Some(fields[i].value.clone());
        }
        proof {
            assert(fields@.skip(i as int).skip(1) =~= fields@.skip(i as int + 1));
        }
        i = i + 1;
    }
    proof {
        assert(fields@.skip(n as int).len() == 0);
    }
    None
}

/// Duplicate an attribute map; the copy holds the same entries.
pub fn copy_fields(fields: &Vec<FieldEntry>) -> (r: Vec<FieldEntry>)
    ensures
        r@ == fields@,
{
    let n = fields.len();
    let mut out: Vec<FieldEntry> = Vec::new();
    let mut i: usize = 0;
    while i < n
        invariant
            n == fields@.len(),
            i <= n,
            out@ =~= fields@.subrange(0, i as int),
        decreases n - i,
    {
        out.push(FieldEntry { key: fields[i].key.clone(), value: fields[i].value.clone() });
        proof {
            assert(out@ =~= fields@.subrange(0, i as int + 1));
        }
        i = i + 1;
    }
    proof {
        assert(fields@.subrange(0, n as int) =~= fields@);
    }
    out
}

} // verus!
