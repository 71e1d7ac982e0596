use http_metrics::interceptor::{
    handler_candidate, handler_label, Action, MetricLog, Outcome, Phase,
};
use http_metrics::{HttpMetricsCollector, HttpMetricsCollectorBuilder, StatusCode};
use std::time::Instant;

fn status(code: u16) -> StatusCode {
    StatusCode::from_u16(code).unwrap()
}

fn collector() -> HttpMetricsCollector {
    HttpMetricsCollectorBuilder::new().build().unwrap()
}

fn count(collector: &HttpMetricsCollector, method: &str, handler: &str, code: &str) -> Option<String> {
    let series = format!(
        "http_requests_total{{code=\"{}\",handler=\"{}\",method=\"{}\"}} ",
        code, handler, method
    );
    let text = collector.collect().unwrap();
    let found = text.lines().find_map(|line| line.strip_prefix(&series).map(str::to_string));
    found
}

/// Runs one request as a server would: resolves the handler, branches, calls
/// `downstream` only where told to, and records. Returns how often downstream
/// was called and what the caller of the server sees.
fn serve(
    collector: &mut HttpMetricsCollector,
    method: &str,
    path: &str,
    pattern: Option<&str>,
    known: bool,
    downstream: Result<u16, u16>,
) -> (u32, Result<String, u16>) {
    let mut calls = 0;
    let candidate = handler_candidate(pattern.map(str::to_string), path);
    let handler = handler_label(candidate, known);
    let mut log = MetricLog::new(method, handler, Instant::now());
    let reply = match log.branch(collector, path) {
        Action::Render => Ok(collector.collect().unwrap()),
        Action::Forward => {
            calls += 1;
            match downstream {
                Ok(code) => {
                    log.settle(Outcome::Response(status(code)));
                    Ok(format!("response {}", code))
                }
                Err(code) => {
                    log.settle(Outcome::Failure(status(code)));
                    Err(code)
                }
            }
        }
    };
    log.commit(collector);
    (calls, reply)
}

#[test]
fn matched_route_labels_with_its_pattern() {
    assert_eq!(handler_candidate(Some("/users/{id}".to_string()), "/users/7"), "/users/{id}");
    assert_eq!(handler_label("/users/{id}".to_string(), true), "/users/{id}");
}

#[test]
fn request_without_pattern_falls_back_to_its_path() {
    assert_eq!(handler_candidate(None, "/users/7"), "/users/7");
    assert_eq!(handler_candidate(None, ""), "");
    assert_eq!(handler_label("/users/7".to_string(), true), "/users/7");
}

#[test]
fn unknown_route_labels_with_the_wildcard() {
    assert_eq!(handler_label("/no/such/path".to_string(), false), "*");
    assert_eq!(handler_label("/users/{id}".to_string(), false), "*");
    assert_eq!(handler_label(String::new(), false), "*");
}

#[test]
fn log_enters_with_status_200() {
    let log = MetricLog::new("GET", "/users".to_string(), Instant::now());
    assert_eq!(log.phase(), Phase::Entered);
    assert_eq!(log.code().as_u16(), 200);
}

#[test]
fn scrape_request_is_rendered_not_forwarded() {
    let collector = collector();
    let mut log = MetricLog::new("GET", "/metrics".to_string(), Instant::now());
    assert_eq!(log.branch(&collector, "/metrics"), Action::Render);
    assert_eq!(log.phase(), Phase::ScrapeShortcut);
}

#[test]
fn other_request_is_forwarded() {
    let collector = collector();
    let mut log = MetricLog::new("GET", "/users".to_string(), Instant::now());
    assert_eq!(log.branch(&collector, "/users"), Action::Forward);
    assert_eq!(log.phase(), Phase::Delegated);

    let mut log = MetricLog::new("POST", "/metrics".to_string(), Instant::now());
    assert_eq!(log.branch(&collector, "/metrics"), Action::Forward);
    assert_eq!(log.phase(), Phase::Delegated);
}

#[test]
fn branch_is_decided_once() {
    let collector = collector();
    let mut log = MetricLog::new("GET", "/metrics".to_string(), Instant::now());
    assert_eq!(log.branch(&collector, "/metrics"), Action::Render);
    assert_eq!(log.branch(&collector, "/users"), Action::Render);
    assert_eq!(log.phase(), Phase::ScrapeShortcut);

    let mut log = MetricLog::new("GET", "/users".to_string(), Instant::now());
    assert_eq!(log.branch(&collector, "/users"), Action::Forward);
    assert_eq!(log.branch(&collector, "/metrics"), Action::Forward);
    assert_eq!(log.phase(), Phase::Delegated);
}

#[test]
fn settle_takes_the_status_of_a_response_and_of_a_failure() {
    let collector = collector();
    let mut log = MetricLog::new("GET", "/users".to_string(), Instant::now());
    log.branch(&collector, "/users");
    log.settle(Outcome::Response(status(201)));
    assert_eq!(log.code().as_u16(), 201);
    log.settle(Outcome::Failure(status(502)));
    assert_eq!(log.code().as_u16(), 502);
}

#[test]
fn settle_leaves_a_request_alone_that_was_not_forwarded() {
    let collector = collector();
    let mut log = MetricLog::new("GET", "/metrics".to_string(), Instant::now());
    log.settle(Outcome::Response(status(404)));
    assert_eq!(log.code().as_u16(), 200);
    log.branch(&collector, "/metrics");
    log.settle(Outcome::Failure(status(500)));
    assert_eq!(log.code().as_u16(), 200);
}

#[test]
fn scrape_never_calls_downstream_and_is_itself_recorded() {
    let mut collector = collector();
    let (calls, reply) =
        serve(&mut collector, "GET", "/metrics", Some("/metrics"), true, Ok(500));
    assert_eq!(calls, 0);
    assert_eq!(reply, Ok(String::new()));
    assert_eq!(count(&collector, "GET", "/metrics", "200"), Some("1".to_string()));

    let (calls, reply) =
        serve(&mut collector, "GET", "/metrics", Some("/metrics"), true, Err(500));
    assert_eq!(calls, 0);
    assert!(reply.unwrap().contains(
        "http_requests_total{code=\"200\",handler=\"/metrics\",method=\"GET\"} 1\n"
    ));
    assert_eq!(count(&collector, "GET", "/metrics", "200"), Some("2".to_string()));
    assert_eq!(count(&collector, "GET", "/metrics", "500"), None);
}

#[test]
fn post_on_the_endpoint_is_an_ordinary_request() {
    let mut collector = collector();
    let (calls, reply) =
        serve(&mut collector, "POST", "/metrics", Some("/metrics"), true, Ok(405));
    assert_eq!(calls, 1);
    assert_eq!(reply, Ok("response 405".to_string()));
    assert_eq!(count(&collector, "POST", "/metrics", "405"), Some("1".to_string()));
}

#[test]
fn response_is_recorded_with_its_status() {
    let mut collector = collector();
    let (calls, reply) =
        serve(&mut collector, "GET", "/users/7", Some("/users/{id}"), true, Ok(404));
    assert_eq!(calls, 1);
    assert_eq!(reply, Ok("response 404".to_string()));
    assert_eq!(count(&collector, "GET", "/users/{id}", "404"), Some("1".to_string()));
    assert_eq!(count(&collector, "GET", "/users/{id}", "200"), None);
    assert_eq!(count(&collector, "GET", "/users/7", "404"), None);
}

#[test]
fn failure_is_recorded_once_and_still_reaches_the_caller() {
    let mut collector = collector();
    let (calls, reply) = serve(&mut collector, "PUT", "/users/7", Some("/users/{id}"), true, Err(503));
    assert_eq!(calls, 1);
    assert_eq!(reply, Err(503));
    assert_eq!(count(&collector, "PUT", "/users/{id}", "503"), Some("1".to_string()));
    assert_eq!(count(&collector, "PUT", "/users/{id}", "200"), None);
}

#[test]
fn unmatched_route_is_recorded_under_the_wildcard() {
    let mut collector = collector();
    serve(&mut collector, "GET", "/no/such/path", None, false, Ok(404));
    serve(&mut collector, "GET", "/another/one", None, false, Ok(404));
    assert_eq!(count(&collector, "GET", "*", "404"), Some("2".to_string()));
    assert_eq!(count(&collector, "GET", "/no/such/path", "404"), None);
    assert_eq!(count(&collector, "GET", "/another/one", "404"), None);
}

#[test]
fn request_that_downstream_never_settles_is_recorded_as_200() {
    let mut collector = collector();
    let mut log = MetricLog::new("GET", "/slow".to_string(), Instant::now());
    assert_eq!(log.branch(&collector, "/slow"), Action::Forward);
    log.commit(&mut collector);
    assert_eq!(count(&collector, "GET", "/slow", "200"), Some("1".to_string()));
}

#[test]
fn known_path_without_pattern_is_recorded_under_the_path() {
    let mut collector = collector();
    let (calls, reply) = serve(&mut collector, "GET", "/health", None, true, Ok(200));
    assert_eq!(calls, 1);
    assert_eq!(reply, Ok("response 200".to_string()));
    assert_eq!(count(&collector, "GET", "/health", "200"), Some("1".to_string()));
    assert_eq!(count(&collector, "GET", "*", "200"), None);
}
