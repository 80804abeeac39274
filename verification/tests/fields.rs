use apm::attrs::{AttrBag, AttrValue};
use apm::fields::{
    destination, extract_traceparent, http, http_request_headers, http_status_code, span_type,
};
use apm::span_context::SpanId;
use apm::trace_context::TraceId;

fn str_attr(bag: &mut AttrBag, key: &str, value: &str) {
    bag.insert(key.to_string(), AttrValue::Str(value.to_string()));
}

#[test]
fn test_span_type_default() {
    let mut bag = AttrBag::new();
    assert_eq!(span_type(&mut bag), "request");
    str_attr(&mut bag, "span.span_type", "external");
    assert_eq!(span_type(&mut bag), "external");
    assert!(bag.is_empty());
}

#[test]
fn test_http_projection() {
    let mut bag = AttrBag::new();
    str_attr(&mut bag, "http.url", "http://h/x");
    str_attr(&mut bag, "http.method", "GET");
    bag.insert("http.status_code".to_string(), AttrValue::I64(200));
    let h = http(&mut bag).unwrap();
    assert_eq!(h.url.as_deref(), Some("http://h/x"));
    assert_eq!(h.method.as_deref(), Some("GET"));
    assert_eq!(h.status_code, Some(200));
    assert_eq!(h.response.unwrap().status_code, Some(200));
    assert!(bag.is_empty());
}

#[test]
fn test_http_projection_absent_without_url() {
    let mut bag = AttrBag::new();
    str_attr(&mut bag, "http.method", "GET");
    assert!(http(&mut bag).is_none());
    // Only the URL key is probed; the method stays for the transaction build.
    assert_eq!(bag.len(), 1);
}

#[test]
fn test_destination_projection() {
    let mut bag = AttrBag::new();
    str_attr(&mut bag, "destination.service.name", "pg");
    str_attr(&mut bag, "destination.address", "10.0.0.1");
    bag.insert("destination.port".to_string(), AttrValue::I64(5432));
    let d = destination(&mut bag).unwrap();
    assert_eq!(d.address.as_deref(), Some("10.0.0.1"));
    assert_eq!(d.port, Some(5432));
    let service = d.service.unwrap();
    assert_eq!(service.name, "pg");
    assert_eq!(service.service_type, "external");
}

#[test]
fn test_request_headers_decode() {
    let mut bag = AttrBag::new();
    str_attr(&mut bag, "http.request.headers", "{\"host\": \"h\", \"accept\": \"*/*\"}");
    let headers = http_request_headers(&mut bag).unwrap();
    assert_eq!(headers.len(), 2);
    assert!(headers.iter().any(|(k, v)| k == "host" && v == "h"));
    assert!(headers.iter().any(|(k, v)| k == "accept" && v == "*/*"));
}

#[test]
fn test_request_headers_reject_non_object() {
    let mut bag = AttrBag::new();
    str_attr(&mut bag, "http.request.headers", "[1, 2]");
    assert!(http_request_headers(&mut bag).is_none());
}

#[test]
fn test_extract_traceparent_from_bag() {
    let mut bag = AttrBag::new();
    str_attr(
        &mut bag,
        "http.request.headers",
        "{\"traceparent\": \"00-0af7651916cd43dd8448eb211c80319c-b7ad6b7169203331-01\"}",
    );
    let (t, p) = extract_traceparent(&bag).unwrap();
    assert_eq!(t, TraceId(0x0af7651916cd43dd8448eb211c80319c));
    assert_eq!(p, SpanId(0xb7ad6b7169203331));
    // Extraction reads without consuming.
    assert_eq!(bag.len(), 1);
}

#[test]
fn test_extract_traceparent_absent() {
    let mut bag = AttrBag::new();
    str_attr(&mut bag, "http.request.headers", "{\"host\": \"h\"}");
    assert!(extract_traceparent(&bag).is_none());
}

#[test]
fn test_status_code_wrong_type_falls_back() {
    let mut bag = AttrBag::new();
    str_attr(&mut bag, "http.status_code", "not-a-number");
    assert_eq!(http_status_code(&mut bag), None);
    assert!(bag.is_empty());
}
