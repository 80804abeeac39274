use apm::ids::HexError;
use apm::span_context::SpanId;
use apm::trace_context::TraceId;

#[test]
fn test_trace_id() {
    let test_data: Vec<(TraceId, &'static str, [u8; 16])> = vec![
        (
            TraceId(0),
            "00000000000000000000000000000000",
            [0, 0, 0, 0, 0, 0, 0, 0, 0, 0, 0, 0, 0, 0, 0, 0],
        ),
        (
            TraceId(42),
            "0000000000000000000000000000002a",
            [0, 0, 0, 0, 0, 0, 0, 0, 0, 0, 0, 0, 0, 0, 0, 42],
        ),
        (
            TraceId(126642714606581564793456114182061442190),
            "5f467fe7bf42676c05e20ba4a90e448e",
            [95, 70, 127, 231, 191, 66, 103, 108, 5, 226, 11, 164, 169, 14, 68, 142],
        ),
    ];
    for test_case in test_data {
        assert_eq!(test_case.0.to_hex(), test_case.1);
        assert_eq!(test_case.0.to_hex(), test_case.1);
        assert_eq!(test_case.0.to_bytes(), test_case.2);

        assert_eq!(test_case.0, TraceId::from_hex(test_case.1).unwrap());
        assert_eq!(test_case.0, TraceId::from_bytes(test_case.2));
    }
}

#[test]
fn test_span_id() {
    let test_data: Vec<(SpanId, &'static str, [u8; 8])> = vec![
        (SpanId(0), "0000000000000000", [0, 0, 0, 0, 0, 0, 0, 0]),
        (SpanId(42), "000000000000002a", [0, 0, 0, 0, 0, 0, 0, 42]),
        (SpanId(5508496025762705295), "4c721bf33e3caf8f", [76, 114, 27, 243, 62, 60, 175, 143]),
    ];
    for test_case in test_data {
        assert_eq!(test_case.0.to_hex(), test_case.1);
        assert_eq!(test_case.0.to_hex(), test_case.1);
        assert_eq!(test_case.0._to_bytes(), test_case.2);

        assert_eq!(test_case.0, SpanId::from_hex(test_case.1).unwrap());
        assert_eq!(test_case.0, SpanId::from_bytes(test_case.2));
    }
}

#[test]
fn test_trace_id_uppercase_hex() {
    assert_eq!(
        TraceId::from_hex("5F467FE7BF42676C05E20BA4A90E448E").unwrap(),
        TraceId(126642714606581564793456114182061442190)
    );
}

#[test]
fn test_from_hex_empty() {
    assert_eq!(TraceId::from_hex(""), Err(HexError::Empty));
    assert_eq!(SpanId::from_hex(""), Err(HexError::Empty));
}

#[test]
fn test_from_hex_invalid_digit() {
    assert_eq!(TraceId::from_hex("12g4"), Err(HexError::InvalidDigit));
    assert_eq!(SpanId::from_hex("xyz"), Err(HexError::InvalidDigit));
}

#[test]
fn test_from_hex_overflow() {
    // 33 hex digits exceed 128 bits; 17 hex digits exceed 64 bits.
    assert_eq!(
        TraceId::from_hex("100000000000000000000000000000000"),
        Err(HexError::Overflow)
    );
    assert_eq!(SpanId::from_hex("10000000000000000"), Err(HexError::Overflow));
}

#[test]
fn test_round_trip_random_shape_values() {
    let ids: Vec<TraceId> = vec![
        TraceId(1),
        TraceId(0xdeadbeefdeadbeefdeadbeefdeadbeef),
        TraceId(u128::MAX),
    ];
    for id in ids {
        assert_eq!(TraceId::from_hex(&id.to_hex()).unwrap(), id);
    }
    let spans: Vec<SpanId> = vec![SpanId(1), SpanId(0xdeadbeefdeadbeef), SpanId(u64::MAX)];
    for id in spans {
        assert_eq!(SpanId::from_hex(&id.to_hex()).unwrap(), id);
    }
}

#[test]
fn test_rand_ids_round_trip() {
    for _ in 0..16 {
        let t = TraceId::rand();
        assert_eq!(TraceId::from_hex(&t.to_hex()).unwrap(), t);
        let s = SpanId::rand();
        assert_eq!(SpanId::from_hex(&s.to_hex()).unwrap(), s);
    }
}
