use lambda_dd_trace::field_visitor::FieldValue;
use lambda_dd_trace::span_record::{now_epoch_nanos, SpanRecord};
use lambda_dd_trace::wire::{
    span_json_text, trace_body, AGENT_ENDPOINT, CONTENT_TYPE_JSON, EXPORT_QUEUE_CAPACITY,
};

#[test]
fn body_of_a_plain_root_span() {
    let r = SpanRecord::new("root".to_string(), 42, 0, 3);
    assert_eq!(
        trace_body(&r),
        "[[{\"name\":\"root\",\"trace_id\":42,\"span_id\":3,\"start\":0,\"duration\":0,\
         \"service\":\"\",\"resource\":\"\",\"error\":0,\"meta\":{},\"metrics\":{},\"type\":\"\"}]]"
    );
}

#[test]
fn body_with_parent_and_meta() {
    let mut r = SpanRecord::new("reqwest.http".to_string(), 42, 99, 100);
    r.service = "svc".to_string();
    r.mark_start_if_unset(1000);
    r.recompute_duration(1500);
    r.apply_field("dd.meta.span.kind", &FieldValue::Str("client".to_string()));
    r.apply_field("dd.meta.http.status_code", &FieldValue::U64(503));
    r.apply_field("dd.error", &FieldValue::Bool(true));
    assert_eq!(
        span_json_text(&r),
        "{\"name\":\"reqwest.http\",\"trace_id\":42,\"parent_id\":99,\"span_id\":100,\
         \"start\":1000,\"duration\":500,\"service\":\"svc\",\"resource\":\"\",\"error\":1,\
         \"meta\":{\"http.status_code\":\"503\",\"span.kind\":\"client\"},\"metrics\":{},\
         \"type\":\"\"}"
    );
}

#[test]
fn texts_are_escaped() {
    let mut r = SpanRecord::new("a\"b\\c".to_string(), 1, 0, 2);
    r.apply_field("dd.resource", &FieldValue::Str("line\nbreak".to_string()));
    let json = span_json_text(&r);
    assert!(json.starts_with("{\"name\":\"a\\\"b\\\\c\","));
    assert!(json.contains("\"resource\":\"line\\nbreak\""));
}

#[test]
fn export_settings() {
    assert_eq!(AGENT_ENDPOINT, "http://localhost:8126/v0.3/traces");
    assert_eq!(CONTENT_TYPE_JSON, "application/json");
    assert_eq!(EXPORT_QUEUE_CAPACITY, 32);
}

#[test]
fn epoch_nanos_from_clock_parts() {
    assert_eq!(SpanRecord::utc_epoch_nanos(1, 5), 1_000_000_005);
    assert_eq!(SpanRecord::utc_epoch_nanos(0, 0), 0);
    assert_eq!(SpanRecord::utc_epoch_nanos(-1, 0), 0);
    assert_eq!(SpanRecord::utc_epoch_nanos(-1, 1_500_000_000), 500_000_000);
    assert_eq!(SpanRecord::utc_epoch_nanos(-10, 999_999_999), 0);
    assert_eq!(SpanRecord::utc_epoch_nanos(i64::MAX, 0), u64::MAX);
    assert_eq!(SpanRecord::utc_epoch_nanos(18_446_744_073, 709_551_615), u64::MAX);
    assert_eq!(SpanRecord::utc_epoch_nanos(18_446_744_073, 709_551_616), u64::MAX);
    assert_eq!(SpanRecord::utc_epoch_nanos(1_700_000_000, 123), 1_700_000_000_000_000_123);
    assert!(SpanRecord::is_zero(&0));
    assert!(!SpanRecord::is_zero(&1));
}

#[test]
fn clock_driven_timing() {
    let before = now_epoch_nanos();
    assert!(before > 1_600_000_000_000_000_000);
    let mut r = SpanRecord::new("a".to_string(), 1, 0, 2);
    r.set_start_once();
    let start = r.start;
    assert!(start >= before);
    r.set_start_once();
    assert_eq!(r.start, start);
    r.update_end();
    assert!(r.start + r.duration >= start);
    assert!(r.start + r.duration <= now_epoch_nanos());
}
