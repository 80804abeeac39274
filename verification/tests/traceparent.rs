use apm::span_context::SpanId;
use apm::trace_context::{TraceFlags, TraceId};
use apm::traceparent::{format_traceparent, parse_traceparent};

#[test]
fn test_format_traceparent() {
    let t = TraceId(0x0af7651916cd43dd8448eb211c80319c);
    let s = SpanId(0xb7ad6b7169203331);
    let header = format_traceparent(&t, &s, &TraceFlags::sampled());
    assert_eq!(header, "00-0af7651916cd43dd8448eb211c80319c-b7ad6b7169203331-01");
}

#[test]
fn test_parse_traceparent() {
    let parsed =
        parse_traceparent("00-0af7651916cd43dd8448eb211c80319c-b7ad6b7169203331-01").unwrap();
    assert_eq!(parsed.0, TraceId(0x0af7651916cd43dd8448eb211c80319c));
    assert_eq!(parsed.1, SpanId(0xb7ad6b7169203331));
}

#[test]
fn test_traceparent_round_trip_values() {
    let cases: Vec<(TraceId, SpanId)> = vec![
        (TraceId(1), SpanId(1)),
        (TraceId(u128::MAX), SpanId(u64::MAX)),
        (TraceId(0x0af7651916cd43dd8448eb211c80319c), SpanId(0xb7ad6b7169203331)),
    ];
    for (t, s) in cases {
        let header = format_traceparent(&t, &s, &TraceFlags::sampled());
        let parsed = parse_traceparent(&header).unwrap();
        assert_eq!(parsed.0, t);
        assert_eq!(parsed.1, s);
    }
}

#[test]
fn test_parse_traceparent_trailing_suffix() {
    let parsed =
        parse_traceparent("00-0af7651916cd43dd8448eb211c80319c-b7ad6b7169203331-01-extra")
            .unwrap();
    assert_eq!(parsed.0, TraceId(0x0af7651916cd43dd8448eb211c80319c));
    assert_eq!(parsed.1, SpanId(0xb7ad6b7169203331));
}

#[test]
fn test_parse_traceparent_rejects_malformed() {
    // Too short.
    assert!(parse_traceparent("00-0af765").is_none());
    // Dash in the wrong place.
    assert!(parse_traceparent("000-af7651916cd43dd8448eb211c80319c-b7ad6b7169203331-01").is_none());
    // Non-hex character inside the trace id.
    assert!(parse_traceparent("00-0az7651916cd43dd8448eb211c80319c-b7ad6b7169203331-01").is_none());
    // Trailing garbage without a separating dash.
    assert!(parse_traceparent("00-0af7651916cd43dd8448eb211c80319c-b7ad6b7169203331-01x").is_none());
}
