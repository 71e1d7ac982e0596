use http_metrics::text::str_eq;

#[test]
fn equal_strings_are_equal() {
    assert!(str_eq("", ""));
    assert!(str_eq("/metrics", "/metrics"));
    assert!(str_eq("GET", "GET"));
    assert!(str_eq("/caf\u{e9}/\u{1f600}", "/caf\u{e9}/\u{1f600}"));
}

#[test]
fn different_strings_are_not_equal() {
    assert!(!str_eq("", "a"));
    assert!(!str_eq("GET", "get"));
    assert!(!str_eq("/metrics", "/metrics/"));
    assert!(!str_eq("/metrics", "/metricz"));
    assert!(!str_eq("/caf\u{e9}", "/cafe"));
    assert!(!str_eq("ab", "ba"));
}
