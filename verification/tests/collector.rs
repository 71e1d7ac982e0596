use http_metrics::collector::rendered_text;
use http_metrics::{HttpMetricsCollector, HttpMetricsCollectorBuilder, StatusCode};
use std::time::{Duration, Instant};

fn status(code: u16) -> StatusCode {
    StatusCode::from_u16(code).unwrap()
}

fn collector() -> HttpMetricsCollector {
    HttpMetricsCollectorBuilder::new().build().unwrap()
}

/// The value of the sample line that starts with `series`, if there is one.
fn sample(text: &str, series: &str) -> Option<String> {
    for line in text.lines() {
        if let Some(rest) = line.strip_prefix(series) {
            if let Some(value) = rest.strip_prefix(' ') {
                return Some(value.to_string());
            }
        }
    }
    None
}

#[test]
fn scrape_request_is_get_on_the_endpoint() {
    let collector = collector();
    assert!(collector.is_endpoint("/metrics", "GET"));
}

#[test]
fn other_method_on_the_endpoint_is_no_scrape_request() {
    let collector = collector();
    assert!(!collector.is_endpoint("/metrics", "POST"));
    assert!(!collector.is_endpoint("/metrics", "HEAD"));
    assert!(!collector.is_endpoint("/metrics", "get"));
    assert!(!collector.is_endpoint("/metrics", ""));
}

#[test]
fn get_on_another_path_is_no_scrape_request() {
    let collector = collector();
    assert!(!collector.is_endpoint("/users", "GET"));
    assert!(!collector.is_endpoint("/metrics/", "GET"));
    assert!(!collector.is_endpoint("/metric", "GET"));
    assert!(!collector.is_endpoint("metrics", "GET"));
    assert!(!collector.is_endpoint("/METRICS", "GET"));
    assert!(!collector.is_endpoint("", "GET"));
}

#[test]
fn fresh_collector_renders_nothing() {
    let collector = collector();
    assert_eq!(collector.collect(), Ok(String::new()));
}

#[test]
fn three_requests_render_as_three() {
    let mut collector = collector();
    for _ in 0..3 {
        collector.record("GET", "/users", status(200), Duration::from_millis(3));
    }
    let text = collector.collect().unwrap();
    assert_eq!(
        sample(&text, "http_requests_total{code=\"200\",handler=\"/users\",method=\"GET\"}"),
        Some("3".to_string())
    );
    assert!(text.contains("# TYPE http_requests_total counter\n"));
    assert!(text.contains("# HELP http_requests_total Total number of HTTP requests\n"));
}

#[test]
fn each_label_tuple_has_its_own_count() {
    let mut collector = collector();
    collector.record("GET", "/users", status(200), Duration::from_millis(1));
    collector.record("GET", "/users", status(404), Duration::from_millis(1));
    collector.record("POST", "/users", status(200), Duration::from_millis(1));
    collector.record("GET", "/orders", status(200), Duration::from_millis(1));
    collector.record("GET", "/users", status(200), Duration::from_millis(1));
    let text = collector.collect().unwrap();
    let count = |labels: &str| sample(&text, &format!("http_requests_total{{{}}}", labels));
    assert_eq!(count("code=\"200\",handler=\"/users\",method=\"GET\""), Some("2".to_string()));
    assert_eq!(count("code=\"404\",handler=\"/users\",method=\"GET\""), Some("1".to_string()));
    assert_eq!(count("code=\"200\",handler=\"/users\",method=\"POST\""), Some("1".to_string()));
    assert_eq!(count("code=\"200\",handler=\"/orders\",method=\"GET\""), Some("1".to_string()));
    assert_eq!(count("code=\"500\",handler=\"/users\",method=\"GET\""), None);
}

#[test]
fn ten_thousand_recordings_lose_none() {
    let mut collector = collector();
    for _ in 0..10_000 {
        collector.record("GET", "/busy", status(200), Duration::from_micros(10));
    }
    let text = collector.collect().unwrap();
    assert_eq!(
        sample(&text, "http_requests_total{code=\"200\",handler=\"/busy\",method=\"GET\"}"),
        Some("10000".to_string())
    );
    assert_eq!(
        sample(
            &text,
            "http_requests_duration_seconds_count{code=\"200\",handler=\"/busy\",method=\"GET\"}"
        ),
        Some("10000".to_string())
    );
}

#[test]
fn histogram_counts_sums_and_buckets_the_durations() {
    let mut collector = collector();
    let labels = "code=\"200\",handler=\"/users\",method=\"GET\"";
    assert!(collector.record("GET", "/users", status(200), Duration::from_millis(3)));
    assert!(collector.record("GET", "/users", status(200), Duration::from_millis(5)));
    assert!(collector.record("GET", "/users", status(200), Duration::from_millis(30)));
    assert!(collector.record("GET", "/users", status(200), Duration::from_secs(2)));
    assert!(collector.record("GET", "/users", status(200), Duration::from_secs(90)));
    let text = collector.collect().unwrap();
    assert!(text.contains("# TYPE http_requests_duration_seconds histogram\n"));
    let bucket = |le: &str| {
        sample(&text, &format!("http_requests_duration_seconds_bucket{{{},le=\"{}\"}}", labels, le))
    };
    assert_eq!(bucket("0.005"), Some("2".to_string()));
    assert_eq!(bucket("0.01"), Some("2".to_string()));
    assert_eq!(bucket("0.025"), Some("2".to_string()));
    assert_eq!(bucket("0.05"), Some("3".to_string()));
    assert_eq!(bucket("0.1"), Some("3".to_string()));
    assert_eq!(bucket("0.25"), Some("3".to_string()));
    assert_eq!(bucket("0.5"), Some("3".to_string()));
    assert_eq!(bucket("1"), Some("3".to_string()));
    assert_eq!(bucket("2.5"), Some("4".to_string()));
    assert_eq!(bucket("5"), Some("4".to_string()));
    assert_eq!(bucket("10"), Some("4".to_string()));
    assert_eq!(bucket("20"), Some("4".to_string()));
    assert_eq!(bucket("30"), Some("4".to_string()));
    assert_eq!(bucket("60"), Some("4".to_string()));
    assert_eq!(bucket("+Inf"), Some("5".to_string()));
    assert_eq!(
        sample(&text, &format!("http_requests_duration_seconds_count{{{}}}", labels)),
        Some("5".to_string())
    );
    let sum: f64 = sample(&text, &format!("http_requests_duration_seconds_sum{{{}}}", labels))
        .unwrap()
        .parse()
        .unwrap();
    assert!((sum - 92.038).abs() < 1e-9);
}

#[test]
fn zero_duration_falls_in_every_bucket() {
    let mut collector = collector();
    collector.record("GET", "/", status(204), Duration::from_nanos(0));
    let text = collector.collect().unwrap();
    let labels = "code=\"204\",handler=\"/\",method=\"GET\"";
    assert_eq!(
        sample(&text, &format!("http_requests_duration_seconds_bucket{{{},le=\"0.005\"}}", labels)),
        Some("1".to_string())
    );
    assert_eq!(
        sample(&text, &format!("http_requests_duration_seconds_sum{{{}}}", labels)),
        Some("0".to_string())
    );
}

#[test]
fn update_metrics_measures_from_the_timestamp() {
    let mut collector = collector();
    let start = Instant::now();
    collector.update_metrics("DELETE", "/users/{id}", status(204), start);
    collector.update_metrics("DELETE", "/users/{id}", status(204), start);
    let text = collector.collect().unwrap();
    let labels = "code=\"204\",handler=\"/users/{id}\",method=\"DELETE\"";
    assert_eq!(
        sample(&text, &format!("http_requests_total{{{}}}", labels)),
        Some("2".to_string())
    );
    assert_eq!(
        sample(&text, &format!("http_requests_duration_seconds_count{{{}}}", labels)),
        Some("2".to_string())
    );
    let sum: f64 = sample(&text, &format!("http_requests_duration_seconds_sum{{{}}}", labels))
        .unwrap()
        .parse()
        .unwrap();
    assert!(sum >= 0.0);
    assert!(sum <= 2.0 * start.elapsed().as_secs_f64());
}

#[test]
fn label_values_that_run_together_share_one_series() {
    let mut collector = collector();
    collector.record("GET", "/a", status(200), Duration::from_millis(1));
    collector.record("GE", "T/a", status(200), Duration::from_millis(1));
    let text = collector.collect().unwrap();
    assert_eq!(
        sample(&text, "http_requests_total{code=\"200\",handler=\"/a\",method=\"GET\"}"),
        Some("2".to_string())
    );
    assert_eq!(
        sample(&text, "http_requests_total{code=\"200\",handler=\"T/a\",method=\"GE\"}"),
        None
    );
}

#[test]
fn rendered_text_passes_a_failure_on() {
    assert_eq!(
        rendered_text(Err("Error: no metric".to_string())),
        Err("Error: no metric".to_string())
    );
}

#[test]
fn rendered_text_decodes_text() {
    assert_eq!(rendered_text(Ok(Vec::new())), Ok(String::new()));
    assert_eq!(
        rendered_text(Ok(b"http_requests_total 3\n".to_vec())),
        Ok("http_requests_total 3\n".to_string())
    );
    assert_eq!(
        rendered_text(Ok("caf\u{e9} \u{1f600}".as_bytes().to_vec())),
        Ok("caf\u{e9} \u{1f600}".to_string())
    );
}

#[test]
fn rendered_text_reports_bytes_that_are_no_text() {
    assert_eq!(rendered_text(Ok(vec![0xff])), Err("Metrics corrupted".to_string()));
    assert_eq!(rendered_text(Ok(vec![b'a', 0xc3])), Err("Metrics corrupted".to_string()));
    assert_eq!(rendered_text(Ok(vec![0xed, 0xa0, 0x80])), Err("Metrics corrupted".to_string()));
    assert_eq!(rendered_text(Ok(vec![0xc0, 0x80])), Err("Metrics corrupted".to_string()));
}
