//! The collector: two series in a registry, a scrape path, and the builder
//! that makes them.

use crate::backend::{
    bounds_in_order, bucket_label, counter_inc, counter_labels, counter_name, counter_values,
    encodable, encode_families,
    error_message, gather_registry, histogram_bounds, histogram_labels, histogram_name,
    histogram_observe, histogram_open, histogram_samples, kinds_of, label_slot, new_counter,
    new_histogram, own_registry, register_counter, register_counter_own, register_histogram,
    register_histogram_own, series_accepted, shared_registry, text_from_utf8,
    DurationHistogram, RequestCounter,
};
use crate::naming::lemma_series_ids_differ;
use crate::status::{code_text, StatusCode};
use crate::tally::{bumped, count_modulus, empty_series, sample_modulus, value_at};
use crate::text::str_eq;
use prometheus::Registry;
use std::time::Duration;
use std::time::Instant;
use vstd::prelude::*;
use vstd::slice::slice_to_vec;

verus! {

/// The bucket bounds of a collector that was given none, in nanoseconds: from
/// five milliseconds to one minute.
pub open spec fn default_bounds() -> Seq<u64> {
    seq![
        5_000_000u64,
        10_000_000u64,
        25_000_000u64,
        50_000_000u64,
        100_000_000u64,
        250_000_000u64,
        500_000_000u64,
        1_000_000_000u64,
        2_500_000_000u64,
        5_000_000_000u64,
        10_000_000_000u64,
        20_000_000_000u64,
        30_000_000_000u64,
        60_000_000_000u64,
    ]
}

/// The name of the request counter.
pub open spec fn count_series_name() -> Seq<char> {
    "http_requests_total"@
}

/// The name of the duration histogram.
pub open spec fn duration_series_name() -> Seq<char> {
    "http_requests_duration_seconds"@
}

/// The label names of both series, in the order in which a recording gives
/// their values.
pub open spec fn series_labels() -> Seq<Seq<char>> {
    seq!["method"@, "handler"@, "code"@]
}

/// The help text of the request counter.
pub open spec fn count_series_help() -> Seq<char> {
    "Total number of HTTP requests"@
}

/// The help text of the duration histogram.
pub open spec fn duration_series_help() -> Seq<char> {
    "HTTP request duration in seconds for all requests"@
}

/// The backend creates both series: their names and label names are valid,
/// their help texts are not empty, no two labels are the same, and none is
/// the label of a histogram's buckets.
pub proof fn lemma_series_accepted()
    ensures
        "method"@ != bucket_label(),
        "handler"@ != bucket_label(),
        "code"@ != bucket_label(),
        series_accepted(count_series_name(), count_series_help(), "method"@, "handler"@, "code"@),
        series_accepted(
            duration_series_name(),
            duration_series_help(),
            "method"@,
            "handler"@,
            "code"@,
        ),
{
    reveal_strlit("http_requests_total");
    reveal_strlit("http_requests_duration_seconds");
    reveal_strlit("Total number of HTTP requests");
    reveal_strlit("HTTP request duration in seconds for all requests");
    reveal_strlit("method");
    reveal_strlit("handler");
    reveal_strlit("code");
    reveal_strlit("le");
    assert("method"@.len() == 6 && "handler"@.len() == 7 && "code"@.len() == 4);
    assert(bucket_label().len() == 2);
}

/// The scrape path of a collector that was given none.
pub open spec fn default_endpoint() -> Seq<char> {
    "/metrics"@
}

/// The method of a scrape request.
pub open spec fn scrape_method() -> Seq<char> {
    "GET"@
}

/// What `collect` answers when the encoded metrics are not text.
pub open spec fn corrupted_message() -> Seq<char> {
    "Metrics corrupted"@
}

/// What `collect` answers for a registry that holds untyped metrics.
pub open spec fn untyped_message() -> Seq<char> {
    "Untyped metrics cannot be rendered"@
}

/// The four things that `build` asks of the backend, in order.
#[derive(Clone, Copy, Debug, PartialEq, Eq, Structural)]
pub enum BuildStep {
    /// Creating the request counter.
    Counter,
    /// Creating the duration histogram.
    Histogram,
    /// Registering the request counter.
    RegisterCounter,
    /// Registering the duration histogram.
    RegisterHistogram,
}

/// Why a collector could not be built.
#[derive(Debug)]
pub struct BuildError {
    /// The step that the backend refused.
    pub step: BuildStep,
    /// The backend's own words.
    pub reason: String,
}

/// The backend's answer with a refusal put in the backend's words, which are
/// never none.
fn described<T>(outcome: Result<T, prometheus::Error>) -> (res: Result<T, String>)
    ensures
        outcome matches Ok(value) ==> res == Ok::<T, String>(value),
        outcome is Err ==> (res matches Err(reason) && reason@.len() > 0),
{
    match outcome {
        Ok(value) => Ok(value),
        Err(error) => Err(error_message(&error)),
    }
}

/// What `build` makes of the backend's answer at one step: the value goes on,
/// a refusal becomes the error of that step.
pub fn checked<T>(step: BuildStep, outcome: Result<T, String>) -> (res: Result<T, BuildError>)
    ensures
        res == match outcome {
            Ok(value) => Ok::<T, BuildError>(value),
            Err(reason) => Err::<T, BuildError>(BuildError { step, reason }),
        },
{
    match outcome {
        Ok(value) => Ok(value),
        Err(reason) => Err(BuildError { step, reason }),
    }
}

/// What a builder holds.
pub struct BuilderView {
    /// The registry in which the series will be registered, if one was
    /// given; where none was, the collector gets a registry of its own.
    pub registry: Option<Registry>,
    /// The scrape path, if one was chosen.
    pub endpoint: Option<Seq<char>>,
    /// The histogram's bucket bounds, in nanoseconds.
    pub buckets: Seq<u64>,
}

/// Configures and builds an `HttpMetricsCollector`.
pub struct HttpMetricsCollectorBuilder {
    registry: Option<Registry>,
    endpoint: Option<String>,
    buckets: Vec<u64>,
}

impl View for HttpMetricsCollectorBuilder {
    type V = BuilderView;

    closed spec fn view(&self) -> BuilderView {
        BuilderView {
            registry: self.registry,
            endpoint: match self.endpoint {
                Some(path) => Some(path@),
                None => None,
            },
            buckets: self.buckets@,
        }
    }
}

impl HttpMetricsCollectorBuilder {
    /// A builder for a collector with a registry of its own, the default
    /// bucket bounds and the default scrape path.
    pub fn new() -> (builder: Self)
        ensures
            builder@.registry is None,
            builder@.endpoint is None,
            builder@.buckets == default_bounds(),
            bounds_in_order(builder@.buckets),
    {
        let buckets: Vec<u64> = vec![
            5_000_000,
            10_000_000,
            25_000_000,
            50_000_000,
            100_000_000,
            250_000_000,
            500_000_000,
            1_000_000_000,
            2_500_000_000,
            5_000_000_000,
            10_000_000_000,
            20_000_000_000,
            30_000_000_000,
            60_000_000_000,
        ];
        assert(buckets@ =~= default_bounds());
        Self { endpoint: None, buckets, registry: None }
    }

    /// Registers the series in `registry` in place of a registry of the
    /// builder's own.
    pub fn registry(self, registry: Registry) -> (builder: Self)
        ensures
            builder@ == (BuilderView { registry: Some(registry), ..self@ }),
    {
        Self { registry: Some(registry), endpoint: self.endpoint, buckets: self.buckets }
    }

    /// Sets the upper bounds of the histogram's buckets, in nanoseconds. They
    /// are taken as they are.
    pub fn buckets(self, buckets: &[u64]) -> (builder: Self)
        ensures
            builder@ == (BuilderView { buckets: buckets@, ..self@ }),
    {
        Self { registry: self.registry, endpoint: self.endpoint, buckets: slice_to_vec(buckets) }
    }

    /// Sets the path on which the metrics are scraped.
    pub fn endpoint(self, endpoint: &str) -> (builder: Self)
        ensures
            builder@ == (BuilderView { endpoint: Some(endpoint@), ..self@ }),
    {
        Self { registry: self.registry, endpoint: Some(endpoint.to_owned()), buckets: self.buckets }
    }

    /// Creates the counter `http_requests_total` and the histogram
    /// `http_requests_duration_seconds`, both labelled `method`, `handler`,
    /// `code`, and registers them. A collector that comes out of this has
    /// recorded nothing. The backend creates both series whatever the builder
    /// holds, so the only failure is that of a registration. A registry of
    /// the collector's own takes both series, so that building succeeds. A
    /// registry that was given may be held by others too: whether it takes a
    /// series is for that registry to say, at that moment, and it refuses one
    /// whose name it already holds.
    pub fn build(self) -> (res: Result<HttpMetricsCollector, BuildError>)
        ensures
            self@.registry is None ==> res is Ok,
            res matches Ok(collector) ==> {
                &&& self@.registry matches Some(registry) ==> collector@.registry == registry
                &&& collector@.endpoint == match self@.endpoint {
                    Some(path) => path,
                    None => default_endpoint(),
                }
                &&& collector@.count_series == (SeriesView {
                    name: count_series_name(),
                    labels: series_labels(),
                })
                &&& collector@.duration_series == (SeriesView {
                    name: duration_series_name(),
                    labels: series_labels(),
                })
                &&& collector@.bounds == self@.buckets
                &&& collector@.counts == empty_series()
                &&& collector@.samples == empty_series()
                &&& bounds_in_order(self@.buckets) ==> collector@.observing
            },
            res matches Err(error) ==> error.step == BuildStep::RegisterCounter || error.step
                == BuildStep::RegisterHistogram,
    {
        proof {
            lemma_series_accepted();
        }
        let http_requests_total = match checked(
            BuildStep::Counter,
            described(
                new_counter(
                    "http_requests_total",
                    "Total number of HTTP requests",
                    "method",
                    "handler",
                    "code",
                ),
            ),
        ) {
            Ok(counter) => counter,
            Err(error) => {
                return Err(error);
            },
        };
        let http_requests_duration_seconds = match checked(
            BuildStep::Histogram,
            described(
                new_histogram(
                    "http_requests_duration_seconds",
                    "HTTP request duration in seconds for all requests",
                    "method",
                    "handler",
                    "code",
                    &self.buckets,
                ),
            ),
        ) {
            Ok(histogram) => histogram,
            Err(error) => {
                return Err(error);
            },
        };
        let registry = match self.registry {
            Some(registry) => {
                match checked(
                    BuildStep::RegisterCounter,
                    described(register_counter(&registry, &http_requests_total)),
                ) {
                    Ok(()) => {},
                    Err(error) => {
                        return Err(error);
                    },
                }
                match checked(
                    BuildStep::RegisterHistogram,
                    described(register_histogram(&registry, &http_requests_duration_seconds)),
                ) {
                    Ok(()) => {},
                    Err(error) => {
                        return Err(error);
                    },
                }
                registry
            },
            None => {
                let mut registry = own_registry();
                proof {
                    lemma_series_ids_differ();
                }
                match checked(
                    BuildStep::RegisterCounter,
                    described(register_counter_own(&mut registry, &http_requests_total)),
                ) {
                    Ok(()) => {},
                    Err(error) => {
                        return Err(error);
                    },
                }
                match checked(
                    BuildStep::RegisterHistogram,
                    described(
                        register_histogram_own(&mut registry, &http_requests_duration_seconds),
                    ),
                ) {
                    Ok(()) => {},
                    Err(error) => {
                        return Err(error);
                    },
                }
                shared_registry(registry)
            },
        };
        let endpoint = match self.endpoint {
            Some(path) => path,
            None => "/metrics".to_owned(),
        };
        Ok(
            HttpMetricsCollector {
                registry,
                http_requests_duration_seconds,
                http_requests_total,
                endpoint,
            },
        )
    }
}

impl Default for HttpMetricsCollectorBuilder {
    fn default() -> (builder: Self)
        ensures
            builder@.registry is None,
            builder@.endpoint is None,
            builder@.buckets == default_bounds(),
            bounds_in_order(builder@.buckets),
    {
        Self::new()
    }
}

/// How a series is named and labelled.
pub struct SeriesView {
    /// The name under which the series is rendered.
    pub name: Seq<char>,
    /// The names of its labels, in the order in which a recording gives
    /// their values.
    pub labels: Seq<Seq<char>>,
}

/// What a collector holds.
pub struct CollectorView {
    /// The registry that renders the two series.
    pub registry: Registry,
    /// The scrape path.
    pub endpoint: Seq<char>,
    /// How the request counter is named and labelled.
    pub count_series: SeriesView,
    /// How the duration histogram is named and labelled.
    pub duration_series: SeriesView,
    /// The request count of each slot.
    pub counts: Map<u64, u64>,
    /// The number of observed durations of each slot.
    pub samples: Map<u64, u64>,
    /// The histogram's bucket bounds, in nanoseconds.
    pub bounds: Seq<u64>,
    /// Whether the histogram takes observations: the backend accepts its
    /// bucket bounds, as it does all that are in order.
    pub observing: bool,
}

impl CollectorView {
    /// Whether a request for `path` with `method` asks for the metrics.
    pub open spec fn is_scrape(self, path: Seq<char>, method: Seq<char>) -> bool {
        path == self.endpoint && method == scrape_method()
    }

    /// The request count of a label tuple.
    pub open spec fn request_count(
        self,
        method: Seq<char>,
        handler: Seq<char>,
        code: Seq<char>,
    ) -> int {
        value_at(self.counts, label_slot(method, handler, code))
    }

    /// The number of observed durations of a label tuple.
    pub open spec fn sample_count(
        self,
        method: Seq<char>,
        handler: Seq<char>,
        code: Seq<char>,
    ) -> int {
        value_at(self.samples, label_slot(method, handler, code))
    }

    /// The collector after one request with these labels was recorded: its
    /// slot counts one request more and, where the histogram takes
    /// observations, one duration more.
    pub open spec fn recorded(
        self,
        method: Seq<char>,
        handler: Seq<char>,
        code: Seq<char>,
    ) -> CollectorView {
        let slot = label_slot(method, handler, code);
        CollectorView {
            counts: bumped(self.counts, slot, count_modulus()),
            samples: if self.observing {
                bumped(self.samples, slot, sample_modulus())
            } else {
                self.samples
            },
            ..self
        }
    }
}

/// Counts and times the requests of an HTTP server, and renders both for
/// scraping.
pub struct HttpMetricsCollector {
    registry: Registry,
    http_requests_total: RequestCounter,
    http_requests_duration_seconds: DurationHistogram,
    endpoint: String,
}

impl View for HttpMetricsCollector {
    type V = CollectorView;

    closed spec fn view(&self) -> CollectorView {
        CollectorView {
            registry: self.registry,
            endpoint: self.endpoint@,
            count_series: SeriesView {
                name: counter_name(self.http_requests_total),
                labels: counter_labels(self.http_requests_total),
            },
            duration_series: SeriesView {
                name: histogram_name(self.http_requests_duration_seconds),
                labels: histogram_labels(self.http_requests_duration_seconds),
            },
            counts: counter_values(self.http_requests_total),
            samples: histogram_samples(self.http_requests_duration_seconds),
            bounds: histogram_bounds(self.http_requests_duration_seconds),
            observing: histogram_open(self.http_requests_duration_seconds),
        }
    }
}

/// What `collect` answers before it asks the encoder: nothing, where the
/// encoder has text for every gathered family, and a failure of its own where
/// a family is untyped.
pub fn refusal(kinds: &Vec<u8>) -> (res: Option<String>)
    ensures
        res is Some <==> !encodable(kinds@),
        res matches Some(message) ==> message@ == untyped_message(),
{
    let mut i: usize = 0;
    while i < kinds.len()
        invariant
            i <= kinds.len(),
            forall|k: int| 0 <= k < i ==> kinds@[k] != 3u8,
        decreases kinds.len() - i,
    {
        if kinds[i] == 3 {
            return Some("Untyped metrics cannot be rendered".to_owned());
        }
        i += 1;
    }
    None
}

/// What `collect` makes of the encoder's answer: a failure is passed on in its
/// own words, bytes that are text become that text, and bytes that are not
/// are reported as corrupted.
pub fn rendered_text(encoded: Result<Vec<u8>, String>) -> (res: Result<String, String>)
    ensures
        encoded matches Err(reason) ==> (res matches Err(message) && message@ == reason@),
        encoded matches Ok(bytes) ==> if vstd::utf8::valid_utf8(bytes@) {
            res matches Ok(text) && text@ == vstd::utf8::decode_utf8(bytes@)
        } else {
            res matches Err(message) && message@ == corrupted_message()
        },
{
    match encoded {
        Err(reason) => Err(reason),
        Ok(bytes) => match text_from_utf8(bytes) {
            Some(text) => Ok(text),
            None => Err("Metrics corrupted".to_owned()),
        },
    }
}

impl HttpMetricsCollector {
    /// Records one request that has taken `elapsed`: the duration goes to the
    /// histogram and the count of the label tuple grows by one. Says whether
    /// the histogram took the duration.
    pub fn record(
        &mut self,
        method: &str,
        handler: &str,
        code: StatusCode,
        elapsed: Duration,
    ) -> (observed: bool)
        ensures
            final(self)@ == old(self)@.recorded(method@, handler@, code_text(code.value())),
            observed == old(self)@.observing,
    {
        let code_label = code.label();
        let observed = histogram_observe(
            &mut self.http_requests_duration_seconds,
            method,
            handler,
            code_label.as_str(),
            elapsed,
        );
        counter_inc(&mut self.http_requests_total, method, handler, code_label.as_str());
        observed
    }

    /// Records one request that began at `timestamp` and ends now.
    pub fn update_metrics(
        &mut self,
        method: &str,
        handler: &str,
        code: StatusCode,
        timestamp: Instant,
    )
        ensures
            final(self)@ == old(self)@.recorded(method@, handler@, code_text(code.value())),
    {
        let elapsed = timestamp.elapsed();
        self.record(method, handler, code, elapsed);
    }

    /// Renders every series of the registry in the Prometheus text format:
    /// the two of this collector and whatever else is registered there. Fails
    /// with a message of its own if the registry holds untyped metrics, for
    /// which the format of the encoder has no text; with the encoder's
    /// message if it cannot encode the others; and with "Metrics corrupted"
    /// if what it encoded is not text. What the text is depends on the
    /// registry and is for the encoder to say; `refusal` and `rendered_text`
    /// say what becomes of the kinds that were gathered and of the encoder's
    /// answer.
    pub fn collect(&self) -> (res: Result<String, String>)
        ensures
            res matches Err(message) ==> message@.len() > 0,
    {
        let families = gather_registry(&self.registry);
        let kinds = kinds_of(&families);
        match refusal(&kinds) {
            Some(message) => {
                proof {
                    reveal_strlit("Untyped metrics cannot be rendered");
                }
                Err(message)
            },
            None => {
                proof {
                    reveal_strlit("Metrics corrupted");
                }
                rendered_text(described(encode_families(&families)))
            },
        }
    }

    /// Whether a request for `path` with `method` asks for the metrics: the
    /// path is the scrape path and the method is GET.
    pub fn is_endpoint(&self, path: &str, method: &str) -> (scrape: bool)
        ensures
            scrape == self@.is_scrape(path@, method@),
    {
        str_eq(path, self.endpoint.as_str()) && str_eq(method, "GET")
    }
}

} // verus!
