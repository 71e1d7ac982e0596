use http_metrics::StatusCode;

#[test]
fn status_codes_run_from_100_to_999() {
    assert!(StatusCode::from_u16(100).is_some());
    assert!(StatusCode::from_u16(999).is_some());
    assert!(StatusCode::from_u16(200).is_some());
    assert!(StatusCode::from_u16(99).is_none());
    assert!(StatusCode::from_u16(1000).is_none());
    assert!(StatusCode::from_u16(0).is_none());
    assert!(StatusCode::from_u16(u16::MAX).is_none());
}

#[test]
fn status_code_keeps_its_number() {
    for code in [100u16, 101, 199, 200, 204, 301, 404, 418, 500, 503, 999] {
        assert_eq!(StatusCode::from_u16(code).unwrap().as_u16(), code);
    }
}

#[test]
fn default_status_is_200() {
    assert_eq!(StatusCode::ok().as_u16(), 200);
    assert_eq!(StatusCode::ok().label(), "200");
}

#[test]
fn label_is_the_three_digits() {
    assert_eq!(StatusCode::from_u16(200).unwrap().label(), "200");
    assert_eq!(StatusCode::from_u16(404).unwrap().label(), "404");
    assert_eq!(StatusCode::from_u16(100).unwrap().label(), "100");
    assert_eq!(StatusCode::from_u16(999).unwrap().label(), "999");
    assert_eq!(StatusCode::from_u16(503).unwrap().label(), "503");
    assert_eq!(StatusCode::from_u16(307).unwrap().label(), "307");
}

#[test]
fn label_agrees_with_decimal_formatting_for_every_code() {
    for code in 100u16..=999 {
        assert_eq!(StatusCode::from_u16(code).unwrap().label(), format!("{}", code));
    }
}
