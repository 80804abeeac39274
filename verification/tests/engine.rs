use apm::attrs::{AttrBag, AttrValue};
use apm::client::Payload;
use apm::layer::ApmLayer;
use apm::model::Outcome;
use apm::span_context::SpanId;
use apm::trace_context::TraceId;

fn str_attr(bag: &mut AttrBag, key: &str, value: &str) {
    bag.insert(key.to_string(), AttrValue::Str(value.to_string()));
}

#[test]
fn test_root_then_child() {
    let mut layer = ApmLayer::new(None).unwrap();

    let mut root_attrs = AttrBag::new();
    str_attr(&mut root_attrs, "http.method", "GET");
    str_attr(&mut root_attrs, "http.pathname", "/x");
    str_attr(&mut root_attrs, "http.url", "http://h/x");
    layer.on_new_span_with_ids(
        1,
        "HTTP request".to_string(),
        root_attrs,
        None,
        1_000_000,
        0,
        TraceId(0xaaaa),
        SpanId(0xbbbb),
    );

    let mut child_attrs = AttrBag::new();
    str_attr(&mut child_attrs, "span.span_type", "external");
    str_attr(&mut child_attrs, "span.sub_type", "http");
    str_attr(&mut child_attrs, "destination.service.name", "h");
    layer.on_new_span_with_ids(
        2,
        "child".to_string(),
        child_attrs,
        Some(1),
        1_000_100,
        100,
        TraceId(0xcccc),
        SpanId(0xdddd),
    );

    layer.on_enter(2, 200);
    layer.on_exit(2, 10_200);
    let child_batch = layer.on_close(2, "INFO".to_string(), "test".to_string()).unwrap();
    let span = match child_batch.payload {
        Payload::Span(s) => s,
        other => panic!("expected a span, got {:?}", other),
    };
    assert_eq!(span.span_type, "external");
    assert_eq!(span.subtype.as_deref(), Some("http"));
    assert_eq!(span.duration_us, 10_000);
    assert_eq!(span.trace_id, TraceId(0xaaaa).to_hex());
    assert_eq!(span.parent_id, SpanId(0xbbbb).to_hex());
    assert_eq!(span.id, SpanId(0xdddd).to_hex());
    // No status code and no explicit hint: the outcome stays unknown.
    assert_eq!(span.outcome, Some(Outcome::Unknown));
    let dest = span.context.unwrap().destination.unwrap();
    assert_eq!(dest.service.unwrap().name, "h");

    let mut update = AttrBag::new();
    update.insert("http.status_code".to_string(), AttrValue::I64(200));
    layer.on_record(1, update);
    layer.on_enter(1, 300);
    layer.on_exit(1, 15_300);
    let root_batch = layer.on_close(1, "INFO".to_string(), "test".to_string()).unwrap();
    let tx = match root_batch.payload {
        Payload::Transaction(t) => t,
        other => panic!("expected a transaction, got {:?}", other),
    };
    assert_eq!(tx.duration_us, 15_000);
    assert_eq!(tx.outcome, Some(Outcome::Success));
    assert_eq!(tx.trace_id, TraceId(0xaaaa).to_hex());
    assert_eq!(tx.id, SpanId(0xbbbb).to_hex());
    let response = tx.context.unwrap().response.unwrap();
    assert_eq!(response.status_code, Some(200));
}

#[test]
fn test_remote_traceparent() {
    let mut layer = ApmLayer::new(None).unwrap();
    let mut attrs = AttrBag::new();
    str_attr(
        &mut attrs,
        "http.request.headers",
        "{\"traceparent\": \"00-0af7651916cd43dd8448eb211c80319c-b7ad6b7169203331-01\"}",
    );
    layer.on_new_span_with_ids(
        7,
        "HTTP request".to_string(),
        attrs,
        None,
        0,
        0,
        TraceId(0x1234),
        SpanId(0x5678),
    );
    let batch = layer.on_close(7, "INFO".to_string(), "test".to_string()).unwrap();
    let tx = match batch.payload {
        Payload::Transaction(t) => t,
        other => panic!("expected a transaction, got {:?}", other),
    };
    assert_eq!(tx.trace_id, "0af7651916cd43dd8448eb211c80319c");
    assert_eq!(tx.parent_id.as_deref(), Some("b7ad6b7169203331"));
}

#[test]
fn test_error_event() {
    let mut layer = ApmLayer::new(None).unwrap();
    layer.on_new_span_with_ids(
        1,
        "root".to_string(),
        AttrBag::new(),
        None,
        0,
        0,
        TraceId(0xaaaa),
        SpanId(0xbbbb),
    );
    let mut attrs = AttrBag::new();
    str_attr(&mut attrs, "message", "db down");
    let batch = layer
        .on_event_with_id(Some(1), "ERROR".to_string(), "db".to_string(), attrs, 0xfeed)
        .unwrap();
    let err = match batch.payload {
        Payload::Error(e) => e,
        other => panic!("expected an error, got {:?}", other),
    };
    assert_eq!(err.trace_id.as_deref(), Some(TraceId(0xaaaa).to_hex().as_str()));
    assert_eq!(err.parent_id.as_deref(), Some(SpanId(0xbbbb).to_hex().as_str()));
    assert_eq!(err.culprit.as_deref(), Some("db"));
    let log = err.log.unwrap();
    assert_eq!(log.level.as_deref(), Some("ERROR"));
    assert_eq!(log.message, "db down");
}

#[test]
fn test_non_error_event_dropped() {
    let mut layer = ApmLayer::new(None).unwrap();
    layer.on_new_span_with_ids(
        1,
        "root".to_string(),
        AttrBag::new(),
        None,
        0,
        0,
        TraceId(1),
        SpanId(2),
    );
    let mut attrs = AttrBag::new();
    str_attr(&mut attrs, "message", "hello");
    assert!(layer
        .on_event_with_id(Some(1), "INFO".to_string(), "db".to_string(), attrs, 1)
        .is_none());
}

#[test]
fn test_event_without_parent_dropped() {
    let layer = ApmLayer::new(None).unwrap();
    let mut attrs = AttrBag::new();
    str_attr(&mut attrs, "message", "orphan");
    assert!(layer
        .on_event_with_id(None, "ERROR".to_string(), "db".to_string(), attrs, 1)
        .is_none());
}

#[test]
fn test_failure_outcome_from_status() {
    let mut layer = ApmLayer::new(None).unwrap();
    layer.on_new_span_with_ids(
        1,
        "root".to_string(),
        AttrBag::new(),
        None,
        0,
        0,
        TraceId(1),
        SpanId(2),
    );
    let mut update = AttrBag::new();
    update.insert("http.status_code".to_string(), AttrValue::I64(503));
    layer.on_record(1, update);
    let batch = layer.on_close(1, "INFO".to_string(), "test".to_string()).unwrap();
    let tx = match batch.payload {
        Payload::Transaction(t) => t,
        other => panic!("expected a transaction, got {:?}", other),
    };
    assert_eq!(tx.outcome, Some(Outcome::Failure));
    let response = tx.context.unwrap().response.unwrap();
    assert_eq!(response.status_code, Some(503));
}

#[test]
fn test_ignored_url() {
    let mut layer = ApmLayer::new(Some("^/health$".to_string())).unwrap();

    let mut attrs = AttrBag::new();
    str_attr(&mut attrs, "http.pathname", "/health");
    layer.on_new_span_with_ids(
        1,
        "root".to_string(),
        attrs,
        None,
        0,
        0,
        TraceId(1),
        SpanId(2),
    );
    assert!(layer.on_close(1, "INFO".to_string(), "test".to_string()).is_none());

    // An unrelated root still emits normally afterwards.
    let mut attrs = AttrBag::new();
    str_attr(&mut attrs, "http.pathname", "/work");
    layer.on_new_span_with_ids(
        2,
        "root".to_string(),
        attrs,
        None,
        0,
        0,
        TraceId(3),
        SpanId(4),
    );
    assert!(layer.on_close(2, "INFO".to_string(), "test".to_string()).is_some());
}

#[test]
fn test_invalid_ignore_regex_rejected() {
    assert!(ApmLayer::new(Some("(".to_string())).is_err());
}

#[test]
fn test_suppressed_child_under_live_root() {
    // Suppression of one span must not disturb its siblings.
    let mut layer = ApmLayer::new(Some("^/health$".to_string())).unwrap();
    layer.on_new_span_with_ids(
        1,
        "root".to_string(),
        AttrBag::new(),
        None,
        0,
        0,
        TraceId(1),
        SpanId(2),
    );
    let mut attrs = AttrBag::new();
    str_attr(&mut attrs, "http.pathname", "/health");
    layer.on_new_span_with_ids(
        2,
        "probe".to_string(),
        attrs,
        Some(1),
        0,
        0,
        TraceId(9),
        SpanId(10),
    );
    assert!(layer.on_close(2, "INFO".to_string(), "t".to_string()).is_none());
    assert!(layer.on_close(1, "INFO".to_string(), "t".to_string()).is_some());
}

#[test]
fn test_duration_accumulates_over_intervals() {
    let mut layer = ApmLayer::new(None).unwrap();
    layer.on_new_span_with_ids(
        1,
        "root".to_string(),
        AttrBag::new(),
        None,
        0,
        0,
        TraceId(1),
        SpanId(2),
    );
    layer.on_enter(1, 100);
    layer.on_exit(1, 300);
    layer.on_enter(1, 1_000);
    layer.on_exit(1, 1_500);
    let batch = layer.on_close(1, "INFO".to_string(), "t".to_string()).unwrap();
    let tx = match batch.payload {
        Payload::Transaction(t) => t,
        other => panic!("expected a transaction, got {:?}", other),
    };
    assert_eq!(tx.duration_us, 700);
}

#[test]
fn test_labels_carry_leftover_attributes() {
    let mut layer = ApmLayer::new(None).unwrap();
    let mut attrs = AttrBag::new();
    str_attr(&mut attrs, "custom.key", "custom-value");
    layer.on_new_span_with_ids(
        1,
        "root".to_string(),
        attrs,
        None,
        0,
        0,
        TraceId(1),
        SpanId(2),
    );
    let batch = layer.on_close(1, "INFO".to_string(), "mymod".to_string()).unwrap();
    let labels = batch.labels.expect("leftover attributes become labels");
    assert!(labels
        .iter()
        .any(|(k, v)| k == "custom.key" && *v == AttrValue::Str("custom-value".to_string())));
    assert!(labels.iter().any(|(k, v)| k == "level" && *v == AttrValue::Str("INFO".to_string())));
    assert!(labels.iter().any(|(k, v)| k == "target" && *v == AttrValue::Str("mymod".to_string())));
}

#[test]
fn test_get_context() {
    let mut layer = ApmLayer::new(None).unwrap();
    layer.on_new_span_with_ids(
        1,
        "root".to_string(),
        AttrBag::new(),
        None,
        0,
        0,
        TraceId(0xaa),
        SpanId(0xbb),
    );
    let ctx = layer.get_context(1).unwrap();
    assert_eq!(ctx.trace_id, TraceId(0xaa));
    assert_eq!(ctx.span_id, SpanId(0xbb));
    assert!(layer.get_context(99).is_none());
}

#[test]
fn test_random_ids_open() {
    let mut layer = ApmLayer::new(None).unwrap();
    layer.on_new_span(1, "root".to_string(), AttrBag::new(), None, 0, 0);
    let ctx = layer.get_context(1).unwrap();
    assert_ne!(ctx.span_id, SpanId(0));
    assert!(layer.on_close(1, "INFO".to_string(), "t".to_string()).is_some());
}
