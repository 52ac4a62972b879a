use goose_cli::clock::{timestamp_now, Moment};
use goose_cli::events::event_name;
use goose_cli::visitor::JsonVisitor;
use serde_json::Value;

#[test]
fn recorded_values_keep_their_kinds() {
    let mut visitor = JsonVisitor::new();
    visitor.record_debug("debug", "Some(1)");
    visitor.record_str("str", "text");
    visitor.record_i64("low", i64::MIN);
    visitor.record_u64("high", u64::MAX);
    visitor.record_bool("yes", true);
    let metadata = Value::from(visitor.into_metadata());
    let expected: Value = serde_json::from_str(
        r#"{
            "debug": "Some(1)",
            "str": "text",
            "low": -9223372036854775808,
            "high": 18446744073709551615,
            "yes": true
        }"#,
    )
    .unwrap();
    assert_eq!(metadata, expected);
}

#[test]
fn last_value_of_a_field_counts() {
    let mut visitor = JsonVisitor::new();
    visitor.record_str("field", "text");
    visitor.record_bool("other", false);
    visitor.record_i64("field", 5);
    let metadata = visitor.into_metadata();
    assert_eq!(metadata.len(), 2);
    assert_eq!(metadata["field"], 5);
    assert_eq!(metadata["other"], false);
}

#[test]
fn signed_and_unsigned_integers_agree() {
    let mut visitor = JsonVisitor::new();
    visitor.record_i64("signed", 5);
    visitor.record_u64("unsigned", 5);
    let metadata = visitor.into_metadata();
    assert_eq!(metadata["signed"], metadata["unsigned"]);
}

#[test]
fn message_names_an_event() {
    let mut visitor = JsonVisitor::new();
    visitor.record_i64("count", 1);
    visitor.record_debug("message", "it began");
    assert_eq!(event_name(&visitor.into_metadata()), "it began");
}

#[test]
fn event_without_a_message_is_unnamed() {
    assert_eq!(event_name(&JsonVisitor::new().into_metadata()), "unnamed event");
}

#[test]
fn message_that_is_no_text_names_nothing() {
    let mut visitor = JsonVisitor::new();
    visitor.record_u64("message", 1);
    assert_eq!(event_name(&visitor.into_metadata()), "unnamed event");
}

#[test]
fn moments_are_written_in_utc() {
    let text = |seconds: i64, nanos: u32| Moment { seconds, nanos }.to_rfc3339();
    assert_eq!(text(0, 0), "1970-01-01T00:00:00+00:00");
    assert_eq!(text(1431648000, 0), "2015-05-15T00:00:00+00:00");
    assert_eq!(text(1431648000, 5_000_000), "2015-05-15T00:00:00.005+00:00");
    assert_eq!(text(1431648000, 1), "2015-05-15T00:00:00.000000001+00:00");
    assert_eq!(text(8_210_266_876_799, 999_999_999), "+262142-12-31T23:59:59.999999999+00:00");
}

#[test]
fn present_time_can_be_read_back() {
    let text = timestamp_now();
    let time = chrono::DateTime::parse_from_rfc3339(&text).unwrap();
    assert_eq!(time.to_rfc3339(), text);
    let written = Moment {
        seconds: time.timestamp(),
        nanos: time.timestamp_subsec_nanos(),
    };
    assert_eq!(written.to_rfc3339(), text);
}
