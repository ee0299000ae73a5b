//! Calendar dates and timestamp formatting.
//!
//! Days since the Unix epoch are converted to proleptic-Gregorian calendar
//! dates with the era-based civil-calendar algorithm, and rendered as
//! `YYYY-MM-DD` strings that name the file archive's daily output files.
//! Epoch-millisecond timestamps are rendered in a fixed-point
//! `seconds.milliseconds` form for storage uniformity.

use vstd::prelude::*;
use crate::text::{lemma_padded_injective, lemma_padded_len, pow10, spec_decimal, spec_padded,
    u64_padded, u64_to_string};

verus! {

/// Upper bound on supported day numbers (far beyond year 200000), so the
/// calendar arithmetic stays within 64 bits.
pub const MAX_DAY: u64 = 100_000_000;

/// Upper bound on supported epoch milliseconds, matching the identifier
/// clock's bound (around year 2508).
pub const MAX_EPOCH_MS: u64 = 17_000_000_000_000;

/// The proleptic-Gregorian date `(year, month, day)` of a day count since the
/// Unix epoch, by the era-based civil-calendar algorithm. The clamping
/// branches are outside the algorithm's mathematical domain and never
/// taken for day counts the calendar describes.
pub open spec fn spec_civil_from_days(days: int) -> (int, int, int) {
    let z = days + 719468;
    let era = z / 146097;
    let doe = z % 146097;
    let yn = doe - doe / 1460 + doe / 36524;
    let yn2 = if yn >= doe / 146096 {
        yn - doe / 146096
    } else {
        0
    };
    let yoe = yn2 / 365;
    let y = yoe + era * 400;
    let t = 365 * yoe + yoe / 4 - yoe / 100;
    let doy = if doe >= t {
        doe - t
    } else {
        0
    };
    let mp = (5 * doy + 2) / 153;
    let ds = (153 * mp + 2) / 5;
    let d = if doy >= ds {
        doy - ds + 1
    } else {
        1
    };
    let m = if mp < 10 {
        mp + 3
    } else {
        mp - 9
    };
    if m <= 2 {
        (y + 1, m, d)
    } else {
        (y, m, d)
    }
}

/// Convert a day count since the Unix epoch to a calendar date.
pub fn civil_from_days(days: u64) -> (r: (u64, u64, u64))
    requires
        days <= MAX_DAY,
    ensures
        (r.0 as int, r.1 as int, r.2 as int) == spec_civil_from_days(days as int),
{
    let z: u64 = days + 719468;
    let era: u64 = z / 146097;
    let doe: u64 = z % 146097;
    let yn: u64 = doe - doe / 1460 + doe / 36524;
    let t3: u64 = doe / 146096;
    let yn2: u64 = if yn >= t3 {
        yn - t3
    } else {
        0
    };
    let yoe: u64 = yn2 / 365;
    let y: u64 = yoe + era * 400;
    let t: u64 = 365 * yoe + yoe / 4 - yoe / 100;
    let doy: u64 = if doe >= t {
        doe - t
    } else {
        0
    };
    let mp: u64 = (5 * doy + 2) / 153;
    let ds: u64 = (153 * mp + 2) / 5;
    let d: u64 = if doy >= ds {
        doy - ds + 1
    } else {
        1
    };
    let m: u64 = if mp < 10 {
        mp + 3
    } else {
        mp - 9
    };
    if m <= 2 {
        (y + 1, m, d)
    } else {
        (y, m, d)
    }
}

/// The `YYYY-MM-DD` rendering of a day count's calendar date.
pub open spec fn spec_date_string(days: int) -> Seq<char> {
    let (y, m, d) = spec_civil_from_days(days);
    spec_padded(y as nat, 4) + seq!['-'] + spec_padded(m as nat, 2) + seq!['-'] + spec_padded(
        d as nat,
        2,
    )
}

/// Render a day count's calendar date as `YYYY-MM-DD`.
pub fn date_string(days: u64) -> (r: String)
    requires
        days <= MAX_DAY,
    ensures
        r@ == spec_date_string(days as int),
{
    let (y, m, d) = civil_from_days(days);
    let mut s = u64_padded(y, 4);
    s.append("-");
    let ms = u64_padded(m, 2);
    s.append(ms.as_str());
    s.append("-");
    let ds = u64_padded(d, 2);
    s.append(ds.as_str());
    proof {
        reveal_strlit("-");
        assert(s@ =~= spec_date_string(days as int));
    }
    s
}

/// The archive file name for a day: `telemetry-YYYY-MM-DD.jsonl`.
pub open spec fn spec_file_name(days: int) -> Seq<char> {
    "telemetry-"@ + spec_date_string(days) + ".jsonl"@
}

/// Render the archive file name for a day.
pub fn file_name_for_day(days: u64) -> (r: String)
    requires
        days <= MAX_DAY,
    ensures
        r@ == spec_file_name(days as int),
{
    let mut s = String::from_str("telemetry-");
    let date = date_string(days);
    s.append(date.as_str());
    s.append(".jsonl");
    proof {
        assert(s@ =~= spec_file_name(days as int));
    }
    s
}

/// A calendar date whose rendering the fixed field widths hold without
/// truncation: years below 10000, two-digit months and days.
pub open spec fn spec_date_in_range(t: (int, int, int)) -> bool {
    &&& 0 <= t.0 < 10000
    &&& 0 <= t.1 < 100
    &&& 0 <= t.2 < 100
}

/// Different calendar days name different archive files: day counts whose
/// calendar dates differ render to different date strings, and so to
/// different file names.
pub proof fn lemma_distinct_dates_distinct_file_names(days1: int, days2: int)
    requires
        spec_civil_from_days(days1) != spec_civil_from_days(days2),
        spec_date_in_range(spec_civil_from_days(days1)),
        spec_date_in_range(spec_civil_from_days(days2)),
    ensures
        spec_date_string(days1) != spec_date_string(days2),
        spec_file_name(days1) != spec_file_name(days2),
{
    let t1 = spec_civil_from_days(days1);
    let t2 = spec_civil_from_days(days2);
    let s1 = spec_date_string(days1);
    let s2 = spec_date_string(days2);
    lemma_padded_len(t1.0 as nat, 4);
    lemma_padded_len(t1.1 as nat, 2);
    lemma_padded_len(t1.2 as nat, 2);
    lemma_padded_len(t2.0 as nat, 4);
    lemma_padded_len(t2.1 as nat, 2);
    lemma_padded_len(t2.2 as nat, 2);
    assert(s1.len() == 10);
    assert(s2.len() == 10);
    assert(spec_padded(t1.0 as nat, 4) =~= s1.subrange(0, 4));
    assert(spec_padded(t1.1 as nat, 2) =~= s1.subrange(5, 7));
    assert(spec_padded(t1.2 as nat, 2) =~= s1.subrange(8, 10));
    assert(spec_padded(t2.0 as nat, 4) =~= s2.subrange(0, 4));
    assert(spec_padded(t2.1 as nat, 2) =~= s2.subrange(5, 7));
    assert(spec_padded(t2.2 as nat, 2) =~= s2.subrange(8, 10));
    reveal_with_fuel(pow10, 5);
    assert(pow10(4) == 10000);
    assert(pow10(2) == 100);
    if s1 == s2 {
        if t1.0 != t2.0 {
            lemma_padded_injective(t1.0 as nat, t2.0 as nat, 4);
        }
        if t1.1 != t2.1 {
            lemma_padded_injective(t1.1 as nat, t2.1 as nat, 2);
        }
        if t1.2 != t2.2 {
            lemma_padded_injective(t1.2 as nat, t2.2 as nat, 2);
        }
        assert(false);
    }
    let f1 = spec_file_name(days1);
    let f2 = spec_file_name(days2);
    reveal_strlit("telemetry-");
    assert("telemetry-"@.len() == 10);
    assert(s1 =~= f1.subrange(10, 20));
    assert(s2 =~= f2.subrange(10, 20));
    if f1 == f2 {
        assert(false);
    }
}

/// The fixed-point `seconds.milliseconds` rendering of an epoch-millisecond
/// timestamp: whole seconds, a dot, and exactly three millisecond digits.
pub open spec fn spec_epoch_string(ms: int) -> Seq<char> {
    spec_decimal((ms / 1000) as nat) + seq!['.'] + spec_padded((ms % 1000) as nat, 3)
}

/// Render an epoch-millisecond timestamp as `seconds.milliseconds`.
pub fn format_epoch_ms(ms: u64) -> (r: String)
    ensures
        r@ == spec_epoch_string(ms as int),
{
    let mut s = u64_to_string(ms / 1000);
    s.append(".");
    let frac = u64_padded(ms % 1000, 3);
    s.append(frac.as_str());
    proof {
        reveal_strlit(".");
        assert(s@ =~= spec_epoch_string(ms as int));
    }
    s
}

/// The day count since the Unix epoch of an epoch-millisecond instant.
pub fn epoch_day_of_ms(ms: u64) -> (r: u64)
    ensures
        r == ms / 86_400_000,
        ms <= MAX_EPOCH_MS ==> r <= MAX_DAY,
{
    ms / 86_400_000
}

} // verus!
