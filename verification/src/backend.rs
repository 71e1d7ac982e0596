//! The Prometheus client behind the collector.
//!
//! Everything in this file is believed, not proved: the types are those of the
//! `prometheus` crate and of `std`, and each contract restates what the source
//! of the function it names does. The rest of the crate is verified against
//! these contracts.
//!
//! Durations are whole numbers here: bucket bounds are nanoseconds and an
//! observation is a `Duration`. The backend itself works in seconds; what is
//! claimed of a histogram is therefore only what does not depend on how those
//! seconds round: how many observations it took, and that it takes them where
//! its bounds are in order.
//!
//! A registry is a handle that others may hold as well, and what it holds is
//! theirs to change at any time. So nothing is claimed of a registry that was
//! given; only of one that this crate has made and not yet handed on.

use crate::tally::{bumped, count_modulus, empty_series, sample_modulus};
use prometheus::Encoder;
use prometheus::HistogramOpts;
use prometheus::HistogramVec;
use prometheus::IntCounterVec;
use prometheus::Opts;
use prometheus::Registry;
use prometheus::TextEncoder;
use std::time::Duration;
use vstd::prelude::*;

verus! {

/// `prometheus::Registry`: the set of series that one scrape renders.
#[verifier::external_type_specification]
#[verifier::external_body]
pub struct ExRegistry(prometheus::Registry);

/// `prometheus::Error`: why the backend refused to create, register or
/// encode something.
#[verifier::external_type_specification]
#[verifier::external_body]
pub struct ExBackendError(prometheus::Error);

/// `std::time::Instant`: a reading of the monotonic clock.
#[verifier::external_type_specification]
#[verifier::external_body]
pub struct ExInstant(std::time::Instant);

/// A `prometheus::IntCounterVec` with three labels: one 64-bit count for each
/// label tuple that was ever recorded.
#[verifier::external_body]
pub struct RequestCounter {
    inner: IntCounterVec,
}

/// A `prometheus::HistogramVec` with three labels: one histogram of seconds
/// for each label tuple that was ever observed.
#[verifier::external_body]
pub struct DurationHistogram {
    inner: HistogramVec,
}

/// What `Registry::gather` hands out: the metric families of a registry as
/// they stood when they were gathered.
#[verifier::external_body]
pub struct Families {
    inner: Vec<prometheus::proto::MetricFamily>,
}

/// The kind of each gathered family, in order, as the number that the backend
/// gives its metric type: 0 counter, 1 gauge, 2 summary, 3 untyped,
/// 4 histogram.
pub uninterp spec fn family_kinds(families: Families) -> Seq<u8>;

/// Whether the encoder has text for families of these kinds: none of them is
/// untyped.
pub open spec fn encodable(kinds: Seq<u8>) -> bool {
    forall|i: int| 0 <= i < kinds.len() ==> kinds[i] != 3u8
}

/// A `prometheus::Registry` that nothing else holds yet: what is in it was
/// registered through this crate.
#[verifier::external_body]
pub struct OwnRegistry {
    inner: Registry,
}

/// The identities of the series that a registry of its own holds.
pub uninterp spec fn registered_ids(registry: OwnRegistry) -> Set<u64>;

/// One step of the hash by which the backend files what it keeps (FNV-1a, 64
/// bits): the byte is mixed into the hash, which is then multiplied, as a
/// 64-bit integer, by the prime of the hash.
pub open spec fn fnv_step(hash: u64, byte: u8) -> u64 {
    (((hash ^ (byte as u64)) * 0x100_0000_01b3) % 0x1_0000_0000_0000_0000) as u64
}

/// The hash after `bytes` went into it, one by one, starting from `hash`.
pub open spec fn fnv_from(hash: u64, bytes: Seq<u8>) -> u64
    decreases bytes.len(),
{
    if bytes.len() == 0 {
        hash
    } else {
        fnv_step(fnv_from(hash, bytes.drop_last()), bytes.last())
    }
}

/// The hash of `bytes`.
pub open spec fn fnv(bytes: Seq<u8>) -> u64 {
    fnv_from(0xcbf2_9ce4_8422_2325, bytes)
}

/// The identity of a series in a registry: the hash of its name and of the
/// byte that the backend puts behind it. The series of this crate have no
/// labels of fixed value, which would go into the hash as well.
pub open spec fn series_id(name: Seq<char>) -> u64 {
    fnv(vstd::utf8::encode_utf8(name) + seq![0xffu8])
}

/// The slot in which the backend keeps the series of a label tuple: the hash
/// of the bytes of the three label values, run together. Two tuples with the
/// same slot share one series; so do two whose values run together to the
/// same text.
pub open spec fn label_slot(method: Seq<char>, handler: Seq<char>, code: Seq<char>) -> u64 {
    fnv(vstd::utf8::encode_utf8(method + handler + code))
}

/// The name that a counter was made with.
pub uninterp spec fn counter_name(counter: RequestCounter) -> Seq<char>;

/// The label names that a counter was made with, in the order in which its
/// label values are given.
pub uninterp spec fn counter_labels(counter: RequestCounter) -> Seq<Seq<char>>;

/// What a counter holds: for each slot whose series exists, its count.
pub uninterp spec fn counter_values(counter: RequestCounter) -> Map<u64, u64>;

/// The name that a histogram was made with.
pub uninterp spec fn histogram_name(histogram: DurationHistogram) -> Seq<char>;

/// The label names that a histogram was made with, in the order in which its
/// label values are given.
pub uninterp spec fn histogram_labels(histogram: DurationHistogram) -> Seq<Seq<char>>;

/// How many observations a histogram took: for each slot whose series exists,
/// its observation count.
pub uninterp spec fn histogram_samples(histogram: DurationHistogram) -> Map<u64, u64>;

/// The bucket bounds, in nanoseconds, that a histogram was made with.
pub uninterp spec fn histogram_bounds(histogram: DurationHistogram) -> Seq<u64>;

/// Whether a histogram can create series at all. The backend checks the bucket
/// bounds only when it creates a series, so a histogram with bounds that it
/// does not accept exists, but takes no observation.
pub uninterp spec fn histogram_open(histogram: DurationHistogram) -> bool;

/// Whether `c` is an ASCII letter or an underscore.
pub open spec fn name_letter(c: char) -> bool {
    ('a' <= c && c <= 'z') || ('A' <= c && c <= 'Z') || c == '_'
}

/// Whether `c` is an ASCII digit.
pub open spec fn name_digit(c: char) -> bool {
    '0' <= c && c <= '9'
}

/// Whether the backend takes `name` as the name of a label: it begins with a
/// letter or an underscore and goes on with letters, underscores and digits.
pub open spec fn valid_label_name(name: Seq<char>) -> bool {
    &&& name.len() > 0
    &&& name_letter(name[0])
    &&& forall|i: int| 0 < i < name.len() ==> name_letter(#[trigger] name[i]) || name_digit(name[i])
}

/// Whether the backend takes `name` as the name of a series: as a label
/// name, but a colon may stand wherever a letter may.
pub open spec fn valid_series_name(name: Seq<char>) -> bool {
    &&& name.len() > 0
    &&& (name_letter(name[0]) || name[0] == ':')
    &&& forall|i: int|
        0 < i < name.len() ==> name_letter(#[trigger] name[i]) || name[i] == ':' || name_digit(
            name[i],
        )
}

/// What suffices for the backend to create a series with three labels: a
/// valid name, a help text that is not empty, and three valid label names of
/// which no two are the same.
pub open spec fn series_accepted(
    name: Seq<char>,
    help: Seq<char>,
    first: Seq<char>,
    second: Seq<char>,
    third: Seq<char>,
) -> bool {
    &&& valid_series_name(name)
    &&& help.len() > 0
    &&& valid_label_name(first)
    &&& valid_label_name(second)
    &&& valid_label_name(third)
    &&& first != second
    &&& first != third
    &&& second != third
}

/// The label under which a histogram renders the bound of a bucket. A
/// histogram with a label of its own by that name creates no series.
pub open spec fn bucket_label() -> Seq<char> {
    "le"@
}

/// Bounds that the backend accepts whatever else holds: each is less than the
/// next, and all are below a million seconds. The backend wants the bounds to
/// increase as seconds; below a million seconds an `f64` lies less than an
/// eighth of a nanosecond from the next, so whole nanoseconds that increase
/// still increase as the seconds they are handed over as. Far above that,
/// neighbouring nanoseconds become the same number of seconds.
pub open spec fn bounds_in_order(bounds: Seq<u64>) -> bool {
    &&& forall|i: int| 0 <= i < bounds.len() ==> bounds[i] < 1_000_000_000_000_000
    &&& forall|i: int, j: int| 0 <= i < j < bounds.len() ==> bounds[i] < bounds[j]
}

/// `Instant::elapsed`: the time that has passed since the reading was taken.
/// It depends on the clock, so nothing is claimed of it.
pub assume_specification[ std::time::Instant::elapsed ](start: &std::time::Instant) -> (elapsed:
    std::time::Duration);

/// `IntCounterVec::new` on `Opts::new(name, help)` and three label names. The
/// backend checks the names and the help text, and nothing else, before it
/// creates the counter; a counter that it does create has that name and those
/// labels and holds nothing yet.
#[verifier::external_body]
pub(crate) fn new_counter(
    name: &str,
    help: &str,
    first: &str,
    second: &str,
    third: &str,
) -> (made: Result<RequestCounter, prometheus::Error>)
    ensures
        series_accepted(name@, help@, first@, second@, third@) ==> made is Ok,
        made matches Ok(counter) ==> counter_name(counter) == name@,
        made matches Ok(counter) ==> counter_labels(counter) == seq![first@, second@, third@],
        made matches Ok(counter) ==> counter_values(counter) == empty_series(),
{
    match IntCounterVec::new(Opts::new(name, help), &[first, second, third]) {
        Ok(inner) => Ok(RequestCounter { inner }),
        Err(error) => Err(error),
    }
}

/// `HistogramVec::new` on `HistogramOpts::new(name, help)` with the given
/// bucket bounds and three label names. Each bound goes to the backend as the
/// seconds that `Duration::from_nanos(..).as_secs_f64()` makes of it. The
/// backend checks the names and the help text, and nothing else, before it
/// creates the histogram: the bounds it checks only later. A histogram that
/// it does create has that name, those labels and those bounds, and has taken
/// no observation yet. It is open if no label is called `le` and the bounds,
/// as seconds, increase; bounds in order do.
#[verifier::external_body]
pub(crate) fn new_histogram(
    name: &str,
    help: &str,
    first: &str,
    second: &str,
    third: &str,
    bounds: &Vec<u64>,
) -> (made: Result<DurationHistogram, prometheus::Error>)
    ensures
        series_accepted(name@, help@, first@, second@, third@) ==> made is Ok,
        made matches Ok(histogram) ==> histogram_name(histogram) == name@,
        made matches Ok(histogram) ==> histogram_labels(histogram) == seq![first@, second@, third@],
        made matches Ok(histogram) ==> histogram_bounds(histogram) == bounds@,
        made matches Ok(histogram) ==> histogram_samples(histogram) == empty_series(),
        made matches Ok(histogram) ==> (bounds_in_order(bounds@) && first@ != bucket_label()
            && second@ != bucket_label() && third@ != bucket_label() ==> histogram_open(
            histogram,
        )),
{
    let seconds = bounds.iter().map(|nanos| Duration::from_nanos(*nanos).as_secs_f64()).collect();
    let opts = HistogramOpts::new(name, help).buckets(seconds);
    match HistogramVec::new(opts, &[first, second, third]) {
        Ok(inner) => Ok(DurationHistogram { inner }),
        Err(error) => Err(error),
    }
}

/// `Registry::new`: a registry that holds nothing.
#[verifier::external_body]
pub(crate) fn own_registry() -> (registry: OwnRegistry)
    ensures
        registered_ids(registry) == Set::<u64>::empty(),
{
    OwnRegistry { inner: Registry::new() }
}

/// `Registry::register` on a handle to the counter, in a registry of its own.
/// The registry takes a series exactly if it holds none of the same identity,
/// and then holds that identity too.
#[verifier::external_body]
pub(crate) fn register_counter_own(
    registry: &mut OwnRegistry,
    counter: &RequestCounter,
) -> (taken: Result<(), prometheus::Error>)
    ensures
        taken is Ok <==> !registered_ids(*old(registry)).contains(
            series_id(counter_name(*counter)),
        ),
        registered_ids(*final(registry)) == if taken is Ok {
            registered_ids(*old(registry)).insert(series_id(counter_name(*counter)))
        } else {
            registered_ids(*old(registry))
        },
{
    registry.inner.register(Box::new(counter.inner.clone()))
}

/// `Registry::register` on a handle to the histogram, in a registry of its
/// own. The registry takes a series exactly if it holds none of the same
/// identity, and then holds that identity too.
#[verifier::external_body]
pub(crate) fn register_histogram_own(
    registry: &mut OwnRegistry,
    histogram: &DurationHistogram,
) -> (taken: Result<(), prometheus::Error>)
    ensures
        taken is Ok <==> !registered_ids(*old(registry)).contains(
            series_id(histogram_name(*histogram)),
        ),
        registered_ids(*final(registry)) == if taken is Ok {
            registered_ids(*old(registry)).insert(series_id(histogram_name(*histogram)))
        } else {
            registered_ids(*old(registry))
        },
{
    registry.inner.register(Box::new(histogram.inner.clone()))
}

/// The registry itself, to be held like any other.
#[verifier::external_body]
pub(crate) fn shared_registry(registry: OwnRegistry) -> (shared: Registry) {
    registry.inner
}

/// `Registry::register` on a handle to the counter, in a registry that others
/// may hold too. Whether the registry takes it depends on what else was
/// registered there, by whom and when.
#[verifier::external_body]
pub(crate) fn register_counter(
    registry: &Registry,
    counter: &RequestCounter,
) -> (taken: Result<(), prometheus::Error>) {
    registry.register(Box::new(counter.inner.clone()))
}

/// `Registry::register` on a handle to the histogram, in a registry that
/// others may hold too. Whether the registry takes it depends on what else was
/// registered there, by whom and when.
#[verifier::external_body]
pub(crate) fn register_histogram(
    registry: &Registry,
    histogram: &DurationHistogram,
) -> (taken: Result<(), prometheus::Error>) {
    registry.register(Box::new(histogram.inner.clone()))
}

/// `IntCounterVec::with_label_values(..).inc()`: the series in the slot of the
/// label tuple is created with count zero if it does not exist, and its count
/// grows by one, wrapping as a 64-bit integer does. No other slot changes, and
/// the counter keeps its name and labels.
#[verifier::external_body]
pub(crate) fn counter_inc(counter: &mut RequestCounter, method: &str, handler: &str, code: &str)
    ensures
        counter_name(*final(counter)) == counter_name(*old(counter)),
        counter_labels(*final(counter)) == counter_labels(*old(counter)),
        counter_values(*final(counter)) == bumped(
            counter_values(*old(counter)),
            label_slot(method@, handler@, code@),
            count_modulus(),
        ),
{
    counter.inner.with_label_values(&[method, handler, code]).inc();
}

/// `HistogramVec::get_metric_with_label_values(..)`, then `Histogram::observe`
/// on the series with `elapsed.as_secs_f64()`. An open histogram creates the
/// series in the slot of the label tuple if it does not exist and counts one
/// observation more for it, in 63 bits; no other slot changes. A histogram
/// that is not open gives no series and stays as it is. Either way it keeps
/// its name, labels and bounds, and stays open or not as it was.
#[verifier::external_body]
pub(crate) fn histogram_observe(
    histogram: &mut DurationHistogram,
    method: &str,
    handler: &str,
    code: &str,
    elapsed: Duration,
) -> (observed: bool)
    ensures
        observed == histogram_open(*old(histogram)),
        histogram_open(*final(histogram)) == histogram_open(*old(histogram)),
        histogram_name(*final(histogram)) == histogram_name(*old(histogram)),
        histogram_labels(*final(histogram)) == histogram_labels(*old(histogram)),
        histogram_bounds(*final(histogram)) == histogram_bounds(*old(histogram)),
        histogram_samples(*final(histogram)) == if observed {
            bumped(
                histogram_samples(*old(histogram)),
                label_slot(method@, handler@, code@),
                sample_modulus(),
            )
        } else {
            histogram_samples(*old(histogram))
        },
{
    match histogram.inner.get_metric_with_label_values(&[method, handler, code]) {
        Ok(series) => {
            series.observe(elapsed.as_secs_f64());
            true
        },
        Err(_) => false,
    }
}

/// `Registry::gather`: the families of every series in the registry, also of
/// those that other owners registered. What they hold depends on all of them,
/// so nothing is claimed of it. It asks every registered source for its
/// metrics; a source of another owner that stops the program there stops it
/// here.
#[verifier::external_body]
pub(crate) fn gather_registry(registry: &Registry) -> (families: Families) {
    Families { inner: registry.gather() }
}

/// `MetricFamily::get_field_type` on each gathered family, as a number.
#[verifier::external_body]
pub(crate) fn kinds_of(families: &Families) -> (kinds: Vec<u8>)
    ensures
        kinds@ == family_kinds(*families),
{
    families.inner.iter().map(|family| family.get_field_type() as u8).collect()
}

/// `TextEncoder::encode` on gathered families, into a fresh buffer. The
/// encoder has no text for an untyped family and stops the program at one, so
/// it is given none. Nothing is claimed of the text.
#[verifier::external_body]
pub(crate) fn encode_families(families: &Families) -> (encoded: Result<Vec<u8>, prometheus::Error>)
    requires
        encodable(family_kinds(*families)),
{
    let mut buffer = Vec::new();
    match TextEncoder::new().encode(&families.inner, &mut buffer) {
        Ok(()) => Ok(buffer),
        Err(error) => Err(error),
    }
}

/// `ToString::to_string` on a backend error: its message. Every message of
/// the backend begins with words of its own, so none is empty.
#[verifier::external_body]
pub(crate) fn error_message(error: &prometheus::Error) -> (message: String)
    ensures
        message@.len() > 0,
{
    error.to_string()
}

/// `String::from_utf8`: the text that the bytes encode, if they are UTF-8.
#[verifier::external_body]
pub(crate) fn text_from_utf8(bytes: Vec<u8>) -> (text: Option<String>)
    ensures
        text is Some <==> vstd::utf8::valid_utf8(bytes@),
        text matches Some(s) ==> s@ == vstd::utf8::decode_utf8(bytes@),
{
    match String::from_utf8(bytes) {
        Ok(s) => Some(s),
        Err(_) => None,
    }
}

} // verus!
