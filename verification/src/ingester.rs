//! The ingester: what submitting an event does, and what a flush takes.
//!
//! An ingester is built for one client and one policy. Under the immediate
//! policy every submitted event becomes a batch of its own, to be dispatched at
//! once, and the buffer stays empty. Under the periodic policy a submitted
//! event joins the buffer and nothing is dispatched; a flush then takes the
//! whole buffer as one batch. A batch that was taken never returns to the
//! buffer, whether its delivery succeeds or fails.

use crate::cache::LogsEventCache;
use crate::client::LogScaleClient;
use crate::events::{LogScaleLogEvent, StructuredLogEvent, UnstructuredLogEvent};
use crate::ingest_job::{start_background_ingest_job, IngestJob};
use crate::options::LoggerIngestPolicy;
use vstd::prelude::*;

verus! {

/// What the buffer holds once `event` has been submitted under `policy`.
pub open spec fn buffer_after_submit<E>(
    policy: LoggerIngestPolicy,
    pending: Seq<E>,
    event: E,
) -> Seq<E> {
    match policy {
        LoggerIngestPolicy::Immediately => pending,
        LoggerIngestPolicy::Periodically(_) => pending.push(event),
    }
}

/// The batch to dispatch at once when `event` is submitted under `policy`.
pub open spec fn dispatch_on_submit<E>(policy: LoggerIngestPolicy, event: E) -> Option<Seq<E>> {
    match policy {
        LoggerIngestPolicy::Immediately => Some(seq![event]),
        LoggerIngestPolicy::Periodically(_) => None,
    }
}

/// The batch that a flush sends when the buffer holds `pending`: all of it, or
/// none where there is nothing to send.
pub open spec fn batch_on_flush<E>(pending: Seq<E>) -> Option<Seq<E>> {
    if pending.len() == 0 {
        None
    } else {
        Some(pending)
    }
}

/// Whether `batch` holds the events `expected`, or is absent where `expected` is.
pub open spec fn holds_batch<E>(batch: Option<Vec<E>>, expected: Option<Seq<E>>) -> bool {
    match batch {
        Some(events) => expected == Some(events@),
        None => expected is None,
    }
}

/// Accepts events one at a time and hands out the batches to deliver.
pub struct LogIngester<E> {
    client: LogScaleClient,
    pending_events: LogsEventCache<E>,
    ingest_policy: LoggerIngestPolicy,
}

/// The ingester of structured events.
pub type StructuredLogIngester = LogIngester<StructuredLogEvent>;

/// The ingester of unstructured events.
pub type UnstructuredLogIngester = LogIngester<UnstructuredLogEvent>;

impl<E> LogIngester<E> {
    /// The policy the ingester was built with.
    pub closed spec fn policy(&self) -> LoggerIngestPolicy {
        self.ingest_policy
    }

    /// The buffered events, oldest first.
    pub closed spec fn pending(&self) -> Seq<E> {
        self.pending_events@
    }

    /// The client the ingester was built with.
    pub closed spec fn target(&self) -> LogScaleClient {
        self.client
    }

    /// An ingester with an empty buffer.
    pub fn new(client: LogScaleClient, ingest_policy: LoggerIngestPolicy) -> (ingester: Self)
        ensures
            ingester.target() == client,
            ingester.policy() == ingest_policy,
            ingester.pending() == Seq::<E>::empty(),
    {
        LogIngester { client, pending_events: LogsEventCache::new(), ingest_policy }
    }

    pub fn client(&self) -> (client: &LogScaleClient)
        ensures
            *client == self.target(),
    {
        &self.client
    }

    pub fn ingest_policy(&self) -> (policy: LoggerIngestPolicy)
        ensures
            policy == self.policy(),
    {
        self.ingest_policy
    }

    /// The number of buffered events.
    pub fn pending_count(&self) -> (count: usize)
        ensures
            count == self.pending().len(),
    {
        self.pending_events.len()
    }

    /// Submits one event.
    ///
    /// Under the immediate policy the result is the batch to dispatch at once,
    /// which holds this event alone, and the buffer is left as it was. Under the
    /// periodic policy the event is appended to the buffer and there is nothing
    /// to dispatch.
    pub fn ingest_log_event(&mut self, log_event: E) -> (dispatch: Option<Vec<E>>)
        ensures
            final(self).target() == old(self).target(),
            final(self).policy() == old(self).policy(),
            final(self).pending() == buffer_after_submit(
                old(self).policy(),
                old(self).pending(),
                log_event,
            ),
            holds_batch(dispatch, dispatch_on_submit(old(self).policy(), log_event)),
    {
        match self.ingest_policy {
            LoggerIngestPolicy::Immediately => {
                let mut batch: Vec<E> = Vec::new();
                batch.push(log_event);
                Some(batch)
            },
            LoggerIngestPolicy::Periodically(_) => {
                self.pending_events.add_log_event(log_event);
                None
            },
        }
    }

    /// Takes the batch for one delivery attempt out of the buffer.
    ///
    /// The batch is everything the buffer held, in submission order, and the
    /// buffer is empty afterwards. Where the buffer held nothing there is no
    /// batch, and so nothing to send.
    pub fn flush(&mut self) -> (batch: Option<Vec<E>>)
        ensures
            final(self).target() == old(self).target(),
            final(self).policy() == old(self).policy(),
            final(self).pending() == Seq::<E>::empty(),
            holds_batch(batch, batch_on_flush(old(self).pending())),
            batch is None <==> old(self).pending().len() == 0,
    {
        if self.pending_events.is_empty() {
            None
        } else {
            Some(self.pending_events.drain())
        }
    }

    /// The job that flushes this ingester, where its policy asks for one:
    /// under the periodic policy a job with the policy's interval, under the
    /// immediate policy none.
    pub fn start_background_ingest_job(&self) -> (job: Option<IngestJob>)
        ensures
            match self.policy() {
                LoggerIngestPolicy::Immediately => job is None,
                LoggerIngestPolicy::Periodically(interval) => job matches Some(j)
                    && j.interval() == interval && j.in_flight() is None,
            },
    {
        match self.ingest_policy {
            LoggerIngestPolicy::Immediately => None,
            LoggerIngestPolicy::Periodically(interval) => Some(
                start_background_ingest_job(interval),
            ),
        }
    }
}

impl<E: LogScaleLogEvent> LogIngester<E> {
    /// A copy of the buffered events, oldest first. The buffer keeps them.
    pub fn pending_events(&self) -> (log_events: Vec<E>)
        ensures
            log_events@ == self.pending(),
    {
        self.pending_events.get_log_events()
    }
}

} // verus!
