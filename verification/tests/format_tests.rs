use telemetry_pipeline::dates::{civil_from_days, date_string, epoch_day_of_ms, file_name_for_day,
    format_epoch_ms};
use telemetry_pipeline::ids::IdGenerator;
use telemetry_pipeline::json::{json_object, json_quote};
use telemetry_pipeline::record::i64_to_string;
use telemetry_pipeline::text::{u64_padded, u64_to_string};
use telemetry_pipeline::FieldEntry;

#[test]
fn decimal_rendering() {
    assert_eq!(u64_to_string(0), "0");
    assert_eq!(u64_to_string(7), "7");
    assert_eq!(u64_to_string(1234567), "1234567");
    assert_eq!(u64_to_string(u64::MAX), "18446744073709551615");
}

#[test]
fn padded_rendering() {
    assert_eq!(u64_padded(42, 5), "00042");
    assert_eq!(u64_padded(0, 3), "000");
    assert_eq!(u64_padded(999, 3), "999");
    assert_eq!(u64_padded(12345, 3), "345");
}

#[test]
fn signed_rendering() {
    assert_eq!(i64_to_string(-500), "-500");
    assert_eq!(i64_to_string(0), "0");
    assert_eq!(i64_to_string(i64::MIN), "-9223372036854775808");
    assert_eq!(i64_to_string(i64::MAX), "9223372036854775807");
}

#[test]
fn epoch_formatting() {
    assert_eq!(format_epoch_ms(1700000000000), "1700000000.000");
    assert_eq!(format_epoch_ms(1500), "1.500");
    assert_eq!(format_epoch_ms(0), "0.000");
    assert_eq!(format_epoch_ms(999), "0.999");
    assert_eq!(format_epoch_ms(1001), "1.001");
}

#[test]
fn civil_dates() {
    assert_eq!(civil_from_days(0), (1970, 1, 1));
    assert_eq!(civil_from_days(19723), (2024, 1, 1));
    assert_eq!(civil_from_days(11016), (2000, 2, 29));
    assert_eq!(date_string(0), "1970-01-01");
    assert_eq!(date_string(19723), "2024-01-01");
    assert_eq!(file_name_for_day(19723), "telemetry-2024-01-01.jsonl");
    assert_eq!(epoch_day_of_ms(1700000000000), 19675);
}

#[test]
fn json_quoting() {
    assert_eq!(json_quote("plain"), "\"plain\"");
    assert_eq!(json_quote("a\"b"), "\"a\\\"b\"");
    assert_eq!(json_quote("back\\slash"), "\"back\\\\slash\"");
    assert_eq!(json_quote("line\nbreak"), "\"line\\nbreak\"");
    assert_eq!(json_quote("tab\there"), "\"tab\\there\"");
    assert_eq!(json_quote("\r"), "\"\\r\"");
    assert_eq!(json_quote("\u{1}"), "\"\\u0001\"");
    assert_eq!(json_quote("\u{1f}"), "\"\\u001f\"");
    assert_eq!(json_quote("h\u{e9}llo"), "\"h\u{e9}llo\"");
}

#[test]
fn json_objects() {
    let empty: Vec<FieldEntry> = Vec::new();
    assert_eq!(json_object(&empty), "{}");
    let fields = vec![
        FieldEntry { key: "a".to_string(), value: "1".to_string() },
        FieldEntry { key: "b".to_string(), value: "x\"y".to_string() },
    ];
    assert_eq!(json_object(&fields), "{\"a\":\"1\",\"b\":\"x\\\"y\"}");
}

#[test]
fn identifiers_are_time_ordered() {
    let mut gen = IdGenerator::new();
    let id1 = gen.next_id(1700000000000);
    assert_eq!(id1, "01700000000000000000");
    assert_eq!(id1.len(), 20);
    let id2 = gen.next_id(1700000000000);
    assert_eq!(id2, "01700000000000000001");
    // the clock going backwards still yields fresh, larger identifiers
    let id3 = gen.next_id(0);
    assert_eq!(id3, "01700000000000000002");
    let id4 = gen.next_id(1700000000001);
    assert!(!id1.is_empty());
    assert!(id1 < id2 && id2 < id3 && id3 < id4);
    let all = [&id1, &id2, &id3, &id4];
    for i in 0..all.len() {
        for j in (i + 1)..all.len() {
            assert_ne!(all[i], all[j]);
        }
    }
}
