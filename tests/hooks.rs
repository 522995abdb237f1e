use lambda_dd_trace::field_visitor::{Field, FieldValue};
use lambda_dd_trace::hooks::SpanHooks;
use lambda_dd_trace::trace_identity::TraceIdentity;
use lambda_dd_trace::wire::trace_body;

fn field(key: &str, value: FieldValue) -> Field {
    Field { key: key.to_string(), value }
}

fn hooks() -> SpanHooks {
    SpanHooks::new(String::new()).with_service_name("svc")
}

#[test]
fn start_is_set_once() {
    let mut h = hooks();
    h.on_new_span(1, "a".to_string(), None, 10, &vec![]);
    h.on_enter(1, 100);
    h.on_exit(1, 150);
    h.on_enter(1, 200);
    let r = h.on_close(1).unwrap();
    assert_eq!(r.start, 100);
    assert_eq!(r.duration, 50);
}

#[test]
fn duration_runs_to_last_exit() {
    let mut h = hooks();
    h.on_new_span(1, "a".to_string(), None, 10, &vec![]);
    h.on_enter(1, 100);
    h.on_exit(1, 150);
    h.on_enter(1, 300);
    h.on_exit(1, 400);
    let r = h.on_close(1).unwrap();
    assert_eq!(r.start, 100);
    assert_eq!(r.duration, 300);
}

#[test]
fn span_closed_without_entering_keeps_zero_timing() {
    let mut h = hooks();
    h.on_new_span(1, "a".to_string(), None, 10, &vec![]);
    let r = h.on_close(1).unwrap();
    assert_eq!((r.start, r.duration), (0, 0));
    assert_eq!(r.service, "svc");
    assert!(h.on_close(1).is_none());
}

#[test]
fn clock_earlier_than_start_gives_zero_duration() {
    let mut h = hooks();
    h.on_new_span(1, "a".to_string(), None, 10, &vec![]);
    h.on_enter(1, 500);
    h.on_exit(1, 400);
    assert_eq!(h.on_close(1).unwrap().duration, 0);
}

#[test]
fn child_inherits_parent_trace() {
    let mut h = hooks();
    h.on_new_span(1, "parent".to_string(), None, 42, &vec![]);
    h.on_new_span(2, "child".to_string(), Some(1), 77, &vec![]);
    let parent = h.on_close(1).unwrap();
    let child = h.on_close(2).unwrap();
    assert_eq!(parent.trace_id, 42);
    assert_eq!(parent.parent_id, 0);
    assert_eq!(child.trace_id, 42);
    assert_eq!(child.parent_id, 1);
    assert_eq!(child.span_id, 2);
    assert_eq!(child.name, "child");
}

#[test]
fn missing_parent_starts_fresh_trace() {
    let mut h = hooks();
    h.on_new_span(2, "orphan".to_string(), Some(9), 77, &vec![]);
    let r = h.on_close(2).unwrap();
    assert_eq!((r.trace_id, r.parent_id), (77, 0));
}

#[test]
fn missing_records_are_ignored() {
    let mut h = hooks();
    h.on_record(5, &vec![field("dd.error", FieldValue::Bool(true))]);
    h.on_event(Some(5), &vec![field("dd.error", FieldValue::Bool(true))]);
    h.on_enter(5, 1);
    h.on_exit(5, 2);
    assert!(h.on_close(5).is_none());
}

#[test]
fn records_and_events_update_the_span() {
    let mut h = hooks();
    h.on_new_span(1, "a".to_string(), None, 10, &vec![field("dd.error", FieldValue::Bool(false))]);
    h.on_record(1, &vec![field("dd.meta.http.status_code", FieldValue::U64(201))]);
    h.on_event(Some(1), &vec![field("dd.meta.error.msg", FieldValue::Str("late".to_string()))]);
    h.on_event(None, &vec![field("dd.resource", FieldValue::Str("x".to_string()))]);
    let r = h.on_close(1).unwrap();
    assert_eq!(r.meta.http_status_code.as_deref(), Some("201"));
    assert_eq!(r.meta.error_msg.as_deref(), Some("late"));
    assert_eq!(r.resource, "");
    assert_eq!(r.error, 0);
}

#[test]
fn root_span_without_headers_omits_parent_id() {
    let id = TraceIdentity::extract_or_generate(None, None);
    let mut h = hooks();
    let attrs = vec![
        field("dd.trace_id", FieldValue::U64(id.trace_id.0)),
        field("dd.parent_id", FieldValue::U64(id.parent_id.0)),
    ];
    h.on_new_span(1, "handle_request_root".to_string(), None, 3, &attrs);
    let r = h.on_close(1).unwrap();
    assert_eq!(r.trace_id, id.trace_id.0);
    assert_eq!(r.parent_id, 0);
    let body = trace_body(&r);
    assert!(!body.contains("parent_id"));
    assert!(body.contains(&format!("\"trace_id\":{}", id.trace_id.0)));
}

#[test]
fn root_span_with_headers_exports_their_trace() {
    let id = TraceIdentity::extract_or_generate(Some("42"), Some("7"));
    let mut h = hooks();
    let attrs = vec![
        field("dd.trace_id", FieldValue::U64(id.trace_id.0)),
        field("dd.parent_id", FieldValue::U64(id.parent_id.0)),
    ];
    h.on_new_span(1, "handle_request_root".to_string(), None, 3, &attrs);
    let body = trace_body(&h.on_close(1).unwrap());
    assert!(body.contains("\"trace_id\":42,"));
    assert!(body.contains("\"parent_id\":7,"));
}
