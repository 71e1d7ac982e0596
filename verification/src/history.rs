//! What a collector holds after any sequence of recordings.

use crate::backend::label_slot;
use crate::collector::CollectorView;
use crate::tally::{count_modulus, empty_series, lemma_bumped, sample_modulus, value_at};
use vstd::prelude::*;

verus! {

/// The labels of one recorded request.
pub struct Labels {
    /// The method of the request.
    pub method: Seq<char>,
    /// Its handler label.
    pub handler: Seq<char>,
    /// The digits of its status code.
    pub code: Seq<char>,
}

impl Labels {
    /// The slot in which the series of these labels is kept.
    pub open spec fn slot(self) -> u64 {
        label_slot(self.method, self.handler, self.code)
    }
}

impl CollectorView {
    /// The collector after each of `requests` was recorded, in order.
    pub open spec fn recorded_all(self, requests: Seq<Labels>) -> CollectorView
        decreases requests.len(),
    {
        if requests.len() == 0 {
            self
        } else {
            self.recorded_all(requests.drop_last()).recorded(
                requests.last().method,
                requests.last().handler,
                requests.last().code,
            )
        }
    }
}

/// How many of `requests` are kept in `slot`.
pub open spec fn recordings_in(requests: Seq<Labels>, slot: u64) -> nat
    decreases requests.len(),
{
    if requests.len() == 0 {
        0
    } else {
        recordings_in(requests.drop_last(), slot) + if requests.last().slot() == slot {
            1nat
        } else {
            0nat
        }
    }
}

/// How many of `requests` carry exactly `labels`.
pub open spec fn recordings_of(requests: Seq<Labels>, labels: Labels) -> nat
    decreases requests.len(),
{
    if requests.len() == 0 {
        0
    } else {
        recordings_of(requests.drop_last(), labels) + if requests.last() == labels {
            1nat
        } else {
            0nat
        }
    }
}

/// No request among `requests` with other labels than `labels` is kept in the
/// slot of `labels`.
pub open spec fn slot_unshared(requests: Seq<Labels>, labels: Labels) -> bool {
    forall|i: int|
        0 <= i < requests.len() && (#[trigger] requests[i]).slot() == labels.slot() ==> requests[i]
            == labels
}

/// Labels whose values run together to the same text are kept in the same
/// slot, whether they are the same labels or not.
pub proof fn lemma_run_together(first: Labels, second: Labels)
    requires
        first.method + first.handler + first.code == second.method + second.handler
            + second.code,
    ensures
        first.slot() == second.slot(),
{
}

/// Recording changes neither the registry nor the scrape path, nor how the
/// two series are named and labelled, nor the histogram's bounds, nor whether
/// the histogram takes observations.
pub proof fn lemma_recording_keeps_configuration(collector: CollectorView, requests: Seq<Labels>)
    ensures
        collector.recorded_all(requests).registry == collector.registry,
        collector.recorded_all(requests).endpoint == collector.endpoint,
        collector.recorded_all(requests).count_series == collector.count_series,
        collector.recorded_all(requests).duration_series == collector.duration_series,
        collector.recorded_all(requests).bounds == collector.bounds,
        collector.recorded_all(requests).observing == collector.observing,
    decreases requests.len(),
{
    if requests.len() > 0 {
        lemma_recording_keeps_configuration(collector, requests.drop_last());
    }
}

/// A series that exists stays: no recording removes the count or the
/// observations of a slot.
pub proof fn lemma_series_stay(collector: CollectorView, requests: Seq<Labels>, slot: u64)
    ensures
        collector.counts.contains_key(slot) ==> collector.recorded_all(
            requests,
        ).counts.contains_key(slot),
        collector.samples.contains_key(slot) ==> collector.recorded_all(
            requests,
        ).samples.contains_key(slot),
    decreases requests.len(),
{
    if requests.len() > 0 {
        lemma_series_stay(collector, requests.drop_last(), slot);
    }
}

/// After any sequence of recordings, the request count of a slot is what it
/// was before plus the number of recordings in that slot, as a 64-bit
/// integer: no recording is lost and none is counted elsewhere.
pub proof fn lemma_request_count_of_slot(
    collector: CollectorView,
    requests: Seq<Labels>,
    slot: u64,
)
    ensures
        value_at(collector.recorded_all(requests).counts, slot) == (value_at(
            collector.counts,
            slot,
        ) + recordings_in(requests, slot)) % count_modulus(),
    decreases requests.len(),
{
    let before = value_at(collector.counts, slot);
    if requests.len() == 0 {
        assert(before % count_modulus() == before) by (nonlinear_arith)
            requires
                0 <= before < 0x1_0000_0000_0000_0000,
                count_modulus() == 0x1_0000_0000_0000_0000,
        ;
    } else {
        let earlier = collector.recorded_all(requests.drop_last());
        lemma_request_count_of_slot(collector, requests.drop_last(), slot);
        lemma_bumped(earlier.counts, requests.last().slot(), count_modulus(), slot);
        if requests.last().slot() == slot {
            let n = recordings_in(requests.drop_last(), slot) as int;
            let m = count_modulus();
            assert(((before + n) % m + 1) % m == (before + n + 1) % m) by (nonlinear_arith)
                requires
                    0 < m,
            ;
        }
    }
}

/// After any sequence of recordings, a histogram that takes observations has
/// observed, for each slot, what it had observed before plus the number of
/// recordings in that slot, as a 63-bit integer.
pub proof fn lemma_sample_count_of_slot(
    collector: CollectorView,
    requests: Seq<Labels>,
    slot: u64,
)
    requires
        collector.observing,
        value_at(collector.samples, slot) < sample_modulus(),
    ensures
        value_at(collector.recorded_all(requests).samples, slot) == (value_at(
            collector.samples,
            slot,
        ) + recordings_in(requests, slot)) % sample_modulus(),
    decreases requests.len(),
{
    let before = value_at(collector.samples, slot);
    if requests.len() == 0 {
        assert(before % sample_modulus() == before) by (nonlinear_arith)
            requires
                0 <= before < 0x8000_0000_0000_0000,
                sample_modulus() == 0x8000_0000_0000_0000,
        ;
    } else {
        let earlier = collector.recorded_all(requests.drop_last());
        lemma_sample_count_of_slot(collector, requests.drop_last(), slot);
        lemma_recording_keeps_configuration(collector, requests.drop_last());
        lemma_bumped(earlier.samples, requests.last().slot(), sample_modulus(), slot);
        if requests.last().slot() == slot {
            let n = recordings_in(requests.drop_last(), slot) as int;
            let m = sample_modulus();
            assert(((before + n) % m + 1) % m == (before + n + 1) % m) by (nonlinear_arith)
                requires
                    0 < m,
            ;
        }
    }
}

/// Where no other labels share their slot, the recordings in the slot of
/// `labels` are the recordings of `labels`.
pub proof fn lemma_recordings_of_unshared_slot(requests: Seq<Labels>, labels: Labels)
    requires
        slot_unshared(requests, labels),
    ensures
        recordings_in(requests, labels.slot()) == recordings_of(requests, labels),
    decreases requests.len(),
{
    if requests.len() > 0 {
        let front = requests.drop_last();
        assert forall|i: int| 0 <= i < front.len() && (#[trigger] front[i]).slot()
            == labels.slot() implies front[i] == labels by {
            assert(front[i] == requests[i]);
        }
        lemma_recordings_of_unshared_slot(front, labels);
        assert(requests.last() == requests[requests.len() - 1]);
    }
}

/// A collector that has recorded nothing and then records any sequence of
/// requests counts, for each label tuple, exactly as many requests as were
/// recorded with it. This holds of labels whose slot no other recorded labels
/// share, and as long as the number fits the counter.
pub proof fn lemma_request_count(collector: CollectorView, requests: Seq<Labels>, labels: Labels)
    requires
        collector.counts == empty_series(),
        slot_unshared(requests, labels),
        recordings_of(requests, labels) < count_modulus(),
    ensures
        collector.recorded_all(requests).request_count(
            labels.method,
            labels.handler,
            labels.code,
        ) == recordings_of(requests, labels),
{
    lemma_request_count_of_slot(collector, requests, labels.slot());
    lemma_recordings_of_unshared_slot(requests, labels);
    let n = recordings_of(requests, labels) as int;
    assert(n % count_modulus() == n) by (nonlinear_arith)
        requires
            0 <= n < count_modulus(),
    ;
}

/// A collector that has recorded nothing, whose histogram takes observations,
/// and that then records any sequence of requests has observed, for each
/// label tuple, exactly as many durations as requests were recorded with it.
/// This holds of labels whose slot no other recorded labels share, and as
/// long as the number fits the histogram's count.
pub proof fn lemma_sample_count(collector: CollectorView, requests: Seq<Labels>, labels: Labels)
    requires
        collector.observing,
        collector.samples == empty_series(),
        slot_unshared(requests, labels),
        recordings_of(requests, labels) < sample_modulus(),
    ensures
        collector.recorded_all(requests).sample_count(
            labels.method,
            labels.handler,
            labels.code,
        ) == recordings_of(requests, labels),
{
    lemma_sample_count_of_slot(collector, requests, labels.slot());
    lemma_recordings_of_unshared_slot(requests, labels);
    let n = recordings_of(requests, labels) as int;
    assert(n % sample_modulus() == n) by (nonlinear_arith)
        requires
            0 <= n < sample_modulus(),
    ;
}

} // verus!
