//! One request on its way through the server: entered, then either answered
//! with the metrics or handed downstream, then recorded.
//!
//! The server does what only it can do (ask the router, render, call
//! downstream); each decision in between is taken here.

use crate::backend::label_slot;
use crate::collector::{CollectorView, HttpMetricsCollector};
use crate::status::{code_text, StatusCode};
use crate::tally::{count_modulus, lemma_bumped, value_at};
use std::time::Instant;
use vstd::prelude::*;

verus! {

/// The handler label of a request that no route matches.
pub open spec fn wildcard() -> Seq<char> {
    "*"@
}

/// The label that a request would get if the router knows it: the route
/// pattern that matched, or the request's own path where the router names no
/// pattern.
pub fn handler_candidate(pattern: Option<String>, path: &str) -> (candidate: String)
    ensures
        candidate@ == match pattern {
            Some(matched) => matched@,
            None => path@,
        },
{
    match pattern {
        Some(matched) => matched,
        None => path.to_owned(),
    }
}

/// The handler label of a request: `candidate` if the router has a resource
/// for it, and the wildcard if it has none, whatever the request's path was.
pub fn handler_label(candidate: String, known: bool) -> (label: String)
    ensures
        label@ == if known {
            candidate@
        } else {
            wildcard()
        },
{
    if known {
        candidate
    } else {
        "*".to_owned()
    }
}

/// Where a request stands, as long as it has a log. Recording uses the log up,
/// so a request that was recorded stands nowhere any more.
#[derive(Clone, Copy, Debug, PartialEq, Eq, Structural)]
pub enum Phase {
    /// It has entered and nothing was decided yet.
    Entered,
    /// It asks for the metrics and is answered with them.
    ScrapeShortcut,
    /// It was handed downstream.
    Delegated,
}

/// What the server does with a request after the branch.
#[derive(Clone, Copy, Debug, PartialEq, Eq, Structural)]
pub enum Action {
    /// Answer with the rendered metrics; downstream is not called.
    Render,
    /// Call downstream with the request.
    Forward,
}

/// How downstream handling ended.
#[derive(Clone, Copy, Debug)]
pub enum Outcome {
    /// With a response of this status.
    Response(StatusCode),
    /// With a failure whose response would have this status.
    Failure(StatusCode),
}

impl Outcome {
    /// The status that the outcome carries.
    pub open spec fn status(self) -> StatusCode {
        match self {
            Outcome::Response(status) => status,
            Outcome::Failure(status) => status,
        }
    }
}

/// What a log holds.
pub struct LogView {
    /// The method of the request.
    pub method: Seq<char>,
    /// The handler label of the request.
    pub handler: Seq<char>,
    /// The status code that the request will be recorded with.
    pub code: int,
    /// When the request entered.
    pub timestamp: Instant,
    /// Where the request stands.
    pub phase: Phase,
}

impl LogView {
    /// The log after the branch on a request that asks for the metrics if
    /// `scrape`. Only a request that has just entered branches.
    pub open spec fn branched(self, scrape: bool) -> LogView {
        LogView {
            phase: match self.phase {
                Phase::Entered => if scrape {
                    Phase::ScrapeShortcut
                } else {
                    Phase::Delegated
                },
                decided => decided,
            },
            ..self
        }
    }

    /// What the server does with a request in this phase: it calls downstream
    /// for a request that was handed downstream, and for no other.
    pub open spec fn action(self) -> Action {
        match self.phase {
            Phase::Delegated => Action::Forward,
            _ => Action::Render,
        }
    }

    /// The log after downstream handling ended with `status`. Only a request
    /// that was handed downstream takes a status from there.
    pub open spec fn settled(self, status: int) -> LogView {
        match self.phase {
            Phase::Delegated => LogView { code: status, ..self },
            _ => self,
        }
    }

    /// `collector` after the request was recorded in it as the log stands.
    pub open spec fn committed(self, collector: CollectorView) -> CollectorView {
        collector.recorded(self.method, self.handler, code_text(self.code))
    }
}

/// The record of one request in flight: what it will be recorded under when
/// it leaves.
pub struct MetricLog {
    method: String,
    handler: String,
    code: StatusCode,
    timestamp: Instant,
    phase: Phase,
}

impl View for MetricLog {
    type V = LogView;

    closed spec fn view(&self) -> LogView {
        LogView {
            method: self.method@,
            handler: self.handler@,
            code: self.code.value(),
            timestamp: self.timestamp,
            phase: self.phase,
        }
    }
}

impl MetricLog {
    /// The log of a request that has just entered at `timestamp`. Its status
    /// is 200 until downstream says otherwise.
    pub fn new(method: &str, handler: String, timestamp: Instant) -> (log: MetricLog)
        ensures
            log@ == (LogView {
                method: method@,
                handler: handler@,
                code: 200,
                timestamp,
                phase: Phase::Entered,
            }),
    {
        MetricLog {
            method: method.to_owned(),
            handler,
            code: StatusCode::ok(),
            timestamp,
            phase: Phase::Entered,
        }
    }

    /// Where the request stands.
    pub fn phase(&self) -> (phase: Phase)
        ensures
            phase == self@.phase,
    {
        self.phase
    }

    /// The status that the request will be recorded with.
    pub fn code(&self) -> (code: StatusCode)
        ensures
            code.value() == self@.code,
    {
        self.code
    }

    /// Decides what happens to the request for `path`: it is answered with
    /// the metrics exactly if it is a scrape request of `collector`, and
    /// handed downstream otherwise.
    pub fn branch(&mut self, collector: &HttpMetricsCollector, path: &str) -> (action: Action)
        ensures
            final(self)@ == old(self)@.branched(collector@.is_scrape(path@, old(self)@.method)),
            action == final(self)@.action(),
    {
        match self.phase {
            Phase::Entered => {
                if collector.is_endpoint(path, self.method.as_str()) {
                    self.phase = Phase::ScrapeShortcut;
                    Action::Render
                } else {
                    self.phase = Phase::Delegated;
                    Action::Forward
                }
            },
            Phase::ScrapeShortcut => Action::Render,
            Phase::Delegated => Action::Forward,
        }
    }

    /// Takes the status with which downstream handling ended, response or
    /// failure alike.
    pub fn settle(&mut self, outcome: Outcome)
        ensures
            final(self)@ == old(self)@.settled(outcome.status().value()),
    {
        match self.phase {
            Phase::Delegated => {
                self.code = match outcome {
                    Outcome::Response(status) => status,
                    Outcome::Failure(status) => status,
                };
            },
            _ => {},
        }
    }

    /// Records the request in `collector`, under its method, its handler and
    /// the status it has now, with the time since it entered. The log is used
    /// up: a request is recorded once.
    pub fn commit(self, collector: &mut HttpMetricsCollector)
        ensures
            final(collector)@ == self@.committed(old(collector)@),
    {
        collector.update_metrics(
            self.method.as_str(),
            self.handler.as_str(),
            self.code,
            self.timestamp,
        );
    }
}

/// A scrape request is never handed downstream: the branch answers it with
/// the metrics, no outcome of downstream handling changes the status it
/// entered with, and it is recorded with that status.
pub proof fn lemma_scrape_not_forwarded(
    log: LogView,
    collector: CollectorView,
    path: Seq<char>,
    status: int,
)
    requires
        log.phase == Phase::Entered,
        collector.is_scrape(path, log.method),
    ensures
        ({
            let branched = log.branched(collector.is_scrape(path, log.method));
            &&& branched.phase == Phase::ScrapeShortcut
            &&& branched.action() == Action::Render
            &&& branched.settled(status).code == log.code
            &&& branched.settled(status).committed(collector) == collector.recorded(
                log.method,
                log.handler,
                code_text(log.code),
            )
        }),
{
}

/// Any other request is handed downstream, and is then recorded once with the
/// status that downstream ended with, failure or not: the request count of
/// its method, its handler and that status grows by one, and the count of
/// every other slot stays as it is.
pub proof fn lemma_outcome_recorded(
    log: LogView,
    collector: CollectorView,
    path: Seq<char>,
    outcome: Outcome,
    other: u64,
)
    requires
        log.phase == Phase::Entered,
        !collector.is_scrape(path, log.method),
    ensures
        ({
            let branched = log.branched(collector.is_scrape(path, log.method));
            let code = outcome.status().value();
            let after = branched.settled(code).committed(collector);
            &&& branched.phase == Phase::Delegated
            &&& branched.action() == Action::Forward
            &&& branched.settled(code).code == code
            &&& after.request_count(log.method, log.handler, code_text(code)) == (
            collector.request_count(log.method, log.handler, code_text(code)) + 1)
                % count_modulus()
            &&& other != label_slot(log.method, log.handler, code_text(code)) ==> value_at(
                after.counts,
                other,
            ) == value_at(collector.counts, other)
        }),
{
    let slot = label_slot(log.method, log.handler, code_text(outcome.status().value()));
    lemma_bumped(collector.counts, slot, count_modulus(), slot);
    lemma_bumped(collector.counts, slot, count_modulus(), other);
}

} // verus!
