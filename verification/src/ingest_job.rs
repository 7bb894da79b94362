//! The periodic flush job, as the decisions it takes between two waits.
//!
//! The program that runs the job waits for the interval, reports the tick,
//! sends the batch it is handed, if any, reports how the delivery ended, and
//! waits again. The job never ends by itself, and a failed delivery does not
//! stop it.

use crate::errors::LogScaleError;
use crate::ingester::{batch_on_flush, holds_batch, LogIngester};
use std::time::Duration;
use vstd::prelude::*;

verus! {

/// How the delivery of a batch ended.
#[derive(Debug, Clone, Copy, PartialEq, Eq, Structural)]
pub enum FlushReport {
    /// No batch was on its way.
    Idle,
    /// The batch was delivered; it held this many events.
    Delivered(usize),
    /// The delivery failed and the batch is lost; it held this many events.
    Lost(usize, LogScaleError),
}

/// The report on a delivery that ended with `outcome`, for a batch of
/// `in_flight` events, or for none.
pub open spec fn report_of(in_flight: Option<usize>, outcome: Result<(), LogScaleError>)
    -> FlushReport {
    match in_flight {
        None => FlushReport::Idle,
        Some(count) => match outcome {
            Ok(_) => FlushReport::Delivered(count),
            Err(error) => FlushReport::Lost(count, error),
        },
    }
}

/// The batch that a tick hands out: the one a flush takes, unless a batch is
/// still on its way (`in_flight`), in which case the tick is skipped.
pub open spec fn batch_on_tick<E>(in_flight: Option<usize>, pending: Seq<E>) -> Option<Seq<E>> {
    if in_flight is Some {
        None
    } else {
        batch_on_flush(pending)
    }
}

/// What the buffer holds after a tick: nothing, unless the tick is skipped.
pub open spec fn buffer_after_tick<E>(in_flight: Option<usize>, pending: Seq<E>) -> Seq<E> {
    if in_flight is Some {
        pending
    } else {
        Seq::empty()
    }
}

/// The state of the flush job of one ingester.
#[derive(Debug)]
pub struct IngestJob {
    interval: Duration,
    in_flight: Option<usize>,
}

/// The job that flushes once per `duration`, waiting for its first tick.
///
/// Starting the job sends nothing: the first batch leaves on the first tick,
/// one full interval after the start.
pub fn start_background_ingest_job(duration: Duration) -> (job: IngestJob)
    ensures
        job.interval() == duration,
        job.in_flight() is None,
{
    IngestJob { interval: duration, in_flight: None }
}

impl IngestJob {
    /// The time between two ticks.
    pub closed spec fn interval(&self) -> Duration {
        self.interval
    }

    /// The size of the batch that is on its way, if one is.
    pub closed spec fn in_flight(&self) -> Option<usize> {
        self.in_flight
    }

    /// The time to wait before the next tick.
    pub fn wait(&self) -> (duration: Duration)
        ensures
            duration == self.interval(),
    {
        self.interval
    }

    /// Whether a batch is on its way.
    pub fn is_sending(&self) -> (sending: bool)
        ensures
            sending <==> self.in_flight() is Some,
    {
        self.in_flight.is_some()
    }

    /// One tick: the interval has elapsed.
    ///
    /// Where no batch is on its way, the ingester is flushed and the result is
    /// the batch to send: all that the buffer held, or nothing where it was
    /// empty. Where a batch is still on its way the tick is skipped, and the
    /// buffer keeps its events for the next one.
    pub fn tick<E>(&mut self, ingester: &mut LogIngester<E>) -> (batch: Option<Vec<E>>)
        ensures
            final(self).interval() == old(self).interval(),
            final(ingester).target() == old(ingester).target(),
            final(ingester).policy() == old(ingester).policy(),
            holds_batch(batch, batch_on_tick(old(self).in_flight(), old(ingester).pending())),
            final(ingester).pending() == buffer_after_tick(
                old(self).in_flight(),
                old(ingester).pending(),
            ),
            final(self).in_flight() == match batch {
                Some(events) => Some(events.len()),
                None => old(self).in_flight(),
            },
            old(ingester).pending().len() == 0 ==> batch is None,
    {
        if self.in_flight.is_some() {
            return None;
        }
        let batch = ingester.flush();
        match &batch {
            Some(events) => {
                self.in_flight = Some(events.len());
            },
            None => {},
        }
        batch
    }

    /// The delivery of the batch that was on its way has ended with `outcome`.
    ///
    /// Whatever the outcome, no batch is on its way afterwards and the job goes
    /// on: a batch whose delivery failed is lost, and is not tried again.
    pub fn delivered(&mut self, outcome: Result<(), LogScaleError>) -> (report: FlushReport)
        ensures
            final(self).interval() == old(self).interval(),
            final(self).in_flight() is None,
            report == report_of(old(self).in_flight(), outcome),
    {
        let report = match self.in_flight {
            None => FlushReport::Idle,
            Some(count) => match outcome {
                Ok(_) => FlushReport::Delivered(count),
                Err(error) => FlushReport::Lost(count, error),
            },
        };
        self.in_flight = None;
        report
    }
}

} // verus!
