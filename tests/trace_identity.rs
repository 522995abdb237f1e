use lambda_dd_trace::trace_identity::{
    ParentSpanId, TraceCell, TraceId, TraceIdentity, PARENT_ID_HEADER, TRACE_ID_HEADER,
};

#[test]
fn headers_with_valid_ids_give_those_ids() {
    let id = TraceIdentity::from_headers(Some("42"), Some("7"), TraceId(5));
    assert_eq!(id.trace_id, TraceId(42));
    assert_eq!(id.parent_id, ParentSpanId(7));
    let id = TraceIdentity::extract_or_generate(Some("42"), Some("7"));
    assert_eq!(id.trace_id.0, 42);
    assert_eq!(id.parent_id.0, 7);
}

#[test]
fn missing_headers_give_fresh_trace_and_no_parent() {
    let id = TraceIdentity::from_headers(None, None, TraceId(5));
    assert_eq!(id.trace_id, TraceId(5));
    assert_eq!(id.parent_id, ParentSpanId(0));
    let id = TraceIdentity::extract_or_generate(None, None);
    assert_eq!(id.parent_id.0, 0);
}

#[test]
fn malformed_headers_give_fresh_trace_and_no_parent() {
    for bad in ["", "abc", "-1", " 42", "42 ", "4.2", "+", "++1", "18446744073709551616"] {
        let id = TraceIdentity::from_headers(Some(bad), Some(bad), TraceId(9));
        assert_eq!(id.trace_id, TraceId(9), "{bad:?}");
        assert_eq!(id.parent_id, ParentSpanId(0), "{bad:?}");
        for _ in 0..3 {
            let id = TraceIdentity::extract_or_generate(Some(bad), Some(bad));
            assert_eq!(id.parent_id.0, 0);
        }
    }
}

#[test]
fn header_parsing_edges() {
    assert_eq!(TraceId::from_header(Some("+42")), Some(TraceId(42)));
    assert_eq!(TraceId::from_header(Some("007")), Some(TraceId(7)));
    assert_eq!(
        TraceId::from_header(Some("18446744073709551615")),
        Some(TraceId(u64::MAX))
    );
    assert_eq!(TraceId::from_header(Some("0")), Some(TraceId(0)));
    assert_eq!(TraceId::from_header(None), None);
    assert_eq!(ParentSpanId::from_header(Some("99")), Some(ParentSpanId(99)));
    assert_eq!(ParentSpanId::from_header(Some("x")), None);
    assert_eq!(ParentSpanId::new(), ParentSpanId(0));
}

#[test]
fn trace_header_alone_keeps_trace_and_zero_parent() {
    let id = TraceIdentity::from_headers(Some("42"), None, TraceId(5));
    assert_eq!(id.trace_id, TraceId(42));
    assert_eq!(id.parent_id, ParentSpanId(0));
}

#[test]
fn outbound_headers_carry_trace_and_current_span() {
    let headers = TraceId(42).outbound_headers(99);
    assert_eq!(
        headers,
        vec![
            (TRACE_ID_HEADER.to_string(), "42".to_string()),
            (PARENT_ID_HEADER.to_string(), "99".to_string()),
        ]
    );
    assert_eq!(TRACE_ID_HEADER, "x-datadog-trace-id");
    assert_eq!(PARENT_ID_HEADER, "x-datadog-parent-id");
    let big = TraceId(u64::MAX);
    assert_eq!(big.outbound_headers(0)[0].1, "18446744073709551615");
    assert_eq!(big.outbound_headers(0)[1].1, "0");
}

#[test]
fn stored_trace_is_current() {
    let mut cell = TraceCell::new(TraceId(1));
    assert_eq!(TraceId::get_current(&cell), TraceId(1));
    TraceId::store(&mut cell, TraceId(42));
    assert_eq!(TraceId::get_current(&cell), TraceId(42));
}

#[test]
fn fresh_trace_ids_vary() {
    let a = TraceId::new();
    let b = TraceId::new();
    let c = TraceId::new();
    assert!(a != b || b != c);
}
