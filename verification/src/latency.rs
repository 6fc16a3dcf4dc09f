//! Scoped timing: a handle that remembers when it was started and, when it is
//! stopped, hands the time that has passed to a histogram of
//! `metrics_runtime`.

use vstd::prelude::*;
use metrics_runtime::data::Histogram;
use metrics_runtime::Sink;
use crate::journal::{Effect, Journal};

verus! {

/// `Sink` of `metrics_runtime`, carried as it is: the proofs see nothing
/// inside it.
#[verifier::external_type_specification]
#[verifier::external_body]
pub struct ExSink(metrics_runtime::Sink);

/// `Histogram` of `metrics_runtime`, carried as it is: the proofs see
/// nothing inside it.
#[verifier::external_type_specification]
#[verifier::external_body]
pub struct ExHistogram(metrics_runtime::data::Histogram);

/// `Sink::now` of `metrics_runtime`: the present reading of the sink's clock,
/// in nanoseconds. It differs from call to call, so nothing is claimed of it.
pub assume_specification[ Sink::now ](sink: &Sink) -> (now: u64);

/// `Histogram::record_timing` of `metrics_runtime`, for two clock readings:
/// hands `end - start`, computed with wrap-around, to the histogram as one
/// observation. A histogram handle is had from a sink alone, which has
/// registered the histogram by then. It returns nothing, and nothing is
/// claimed of it.
#[verifier::external_body]
fn histogram_record_timing(histogram: &Histogram, start: u64, end: u64) {
    histogram.record_timing(start, end)
}

/// The latency histogram of a dispatcher, with the sink whose clock times it.
///
/// Whoever builds the dispatcher takes the sink from its receiver and
/// registers the histogram with the sink. Registering fails on a receiver
/// whose histogram window is not longer than its granularity, which only the
/// one who configured the receiver can rule out.
pub struct LatencyHistogram {
    sink: Sink,
    histogram: Histogram,
}

/// An open latency scope: the clock reading at its start, and the clock and
/// the histogram it is bound to. Stopping it uses it up, so no scope is
/// stopped twice.
pub struct TimeHandle<'a> {
    start: u64,
    sink: &'a Sink,
    histo: &'a Histogram,
}

impl<'a> TimeHandle<'a> {
    /// The clock reading taken when the scope was opened.
    pub closed spec fn started_at(&self) -> u64 {
        self.start
    }

    /// The sink whose clock times the scope.
    pub closed spec fn sink(&self) -> Sink {
        *self.sink
    }

    /// The histogram the scope reports to.
    pub closed spec fn histogram(&self) -> Histogram {
        *self.histo
    }

    /// Opens a scope bound to `histo` and timed by the clock of `sink`: reads
    /// the clock once and keeps the reading.
    pub fn start(sink: &'a Sink, histo: &'a Histogram, journal: &mut Journal) -> (handle:
        TimeHandle<'a>)
        ensures
            handle.sink() == *sink,
            handle.histogram() == *histo,
            final(journal)@ == old(journal)@.push(Effect::TimerStarted { at: handle.started_at() }),
    {
        let start = sink.now();
        journal.note(Ghost(Effect::TimerStarted { at: start }));
        TimeHandle { start, sink, histo }
    }

    /// Closes the scope: reads the clock again and hands the reading kept
    /// from the start and the new one to the histogram, as one observation.
    pub fn stop(self, journal: &mut Journal)
        ensures
            final(journal)@.len() == old(journal)@.len() + 1,
            final(journal)@.drop_last() == old(journal)@,
            final(journal)@.last() is LatencyRecorded,
            final(journal)@.last()->start == self.started_at(),
    {
        let end = self.sink.now();
        histogram_record_timing(self.histo, self.start, end);
        journal.note(Ghost(Effect::LatencyRecorded { start: self.start, end }));
        assert(journal@.drop_last() =~= old(journal)@);
    }
}

impl LatencyHistogram {
    /// The sink whose clock times the scopes.
    pub closed spec fn sink(&self) -> Sink {
        self.sink
    }

    /// The histogram the scopes report to.
    pub closed spec fn histogram(&self) -> Histogram {
        self.histogram
    }

    /// Binds a histogram to the sink whose clock is to time it.
    pub fn new(sink: Sink, histogram: Histogram) -> (latency: LatencyHistogram)
        ensures
            latency.sink() == sink,
            latency.histogram() == histogram,
    {
        LatencyHistogram { sink, histogram }
    }

    /// Opens a latency scope on this histogram.
    pub fn record(&self, journal: &mut Journal) -> (handle: TimeHandle<'_>)
        ensures
            handle.sink() == self.sink(),
            handle.histogram() == self.histogram(),
            final(journal)@ == old(journal)@.push(Effect::TimerStarted { at: handle.started_at() }),
    {
        TimeHandle::start(&self.sink, &self.histogram, journal)
    }
}

} // verus!
