use apm::middleware::parse_x_forwarded_for;

#[test]
fn test_first_forwarded_address() {
    assert_eq!(parse_x_forwarded_for("203.0.113.7, 198.51.100.2"), "203.0.113.7");
}

#[test]
fn test_single_address_trimmed() {
    assert_eq!(parse_x_forwarded_for("  203.0.113.7  "), "203.0.113.7");
}

#[test]
fn test_no_comma_whole_value() {
    assert_eq!(parse_x_forwarded_for("198.51.100.2"), "198.51.100.2");
}

#[test]
fn test_empty_value() {
    assert_eq!(parse_x_forwarded_for(""), "");
    assert_eq!(parse_x_forwarded_for(" , 198.51.100.2"), "");
}
