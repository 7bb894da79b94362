//! Loggers: an ingester together with the options it was built from.
//!
//! A logger turns what a logging call carries into an event and submits it.
//! Registering the logger with a logging facade, reading the clock and running
//! the flush job are left to the program.

use crate::client::{url_parse, LogScaleClient};
use crate::errors::ConstructionError;
use crate::events::{StructuredLogEvent, UnstructuredLogEvent};
use crate::ingest_job::{batch_on_tick, buffer_after_tick, IngestJob};
use crate::ingester::{buffer_after_submit, dispatch_on_submit, holds_batch, LogIngester};
use crate::options::{LoggerIngestPolicy, LoggerOptions};
use serde_json::Value;
use vstd::prelude::*;

verus! {

/// A logger for events of one kind.
pub struct Logger<E> {
    log_ingester: LogIngester<E>,
    options: LoggerOptions,
}

/// The logger of structured events.
pub type LogScaleStructuredLogger = Logger<StructuredLogEvent>;

/// The logger of structured events, under its short name.
pub type LogScaleLogger = LogScaleStructuredLogger;

/// The logger of unstructured events.
pub type LogScaleUnstructuredLogger = Logger<UnstructuredLogEvent>;

impl<E> Logger<E> {
    /// The ingester that the logger submits to.
    pub closed spec fn ingester(&self) -> LogIngester<E> {
        self.log_ingester
    }

    /// The options the logger was built from.
    pub closed spec fn options(&self) -> LoggerOptions {
        self.options
    }

    /// Whether the logger is the one that `create` builds from these
    /// arguments, once `base_url` is what the parser made of the URL: its
    /// ingester delivers to that URL under `ingest_token`, follows the policy
    /// of `options`, and has buffered nothing.
    pub open spec fn is_fresh(
        &self,
        base_url: Seq<char>,
        ingest_token: Seq<char>,
        options: LoggerOptions,
    ) -> bool {
        &&& self.options() == options
        &&& self.ingester().policy() == options.ingest_policy
        &&& self.ingester().pending() == Seq::<E>::empty()
        &&& self.ingester().target().base_url() == base_url
        &&& self.ingester().target().token() == ingest_token
    }

    /// The logger that delivers to the instance at `url`.
    ///
    /// Fails where `url` does not parse as an absolute URL; no ingester exists
    /// then.
    pub fn create(url: &str, ingest_token: &str, options: LoggerOptions) -> (logger: Result<
        Self,
        ConstructionError,
    >)
        ensures
            match logger {
                Ok(l) => url_parse(url@) matches Some(base_url) && l.is_fresh(
                    base_url,
                    ingest_token@,
                    options,
                ),
                Err(e) => url_parse(url@) is None && e == ConstructionError::MalformedUrl,
            },
    {
        match LogScaleClient::from_url(url, ingest_token.to_owned()) {
            Ok(client) => {
                let log_ingester = LogIngester::new(client, options.ingest_policy);
                Ok(Logger { log_ingester, options })
            },
            Err(e) => Err(e),
        }
    }

    /// The logger that delivers to the instance at `url`, and with it the
    /// flush job to run where the policy is periodic.
    ///
    /// Fails where `url` does not parse as an absolute URL; neither an ingester
    /// nor a job exists then.
    pub fn init(url: String, ingest_token: String, options: LoggerOptions) -> (started: Result<
        (Self, Option<IngestJob>),
        ConstructionError,
    >)
        ensures
            match started {
                Ok((l, job)) => {
                    &&& url_parse(url@) matches Some(base_url) && l.is_fresh(
                        base_url,
                        ingest_token@,
                        options,
                    )
                    &&& match options.ingest_policy {
                        LoggerIngestPolicy::Immediately => job is None,
                        LoggerIngestPolicy::Periodically(interval) => job matches Some(j)
                            && j.interval() == interval && j.in_flight() is None,
                    }
                },
                Err(e) => url_parse(url@) is None && e == ConstructionError::MalformedUrl,
            },
    {
        match Self::create(url.as_str(), ingest_token.as_str(), options) {
            Ok(logger) => {
                let job = logger.log_ingester.start_background_ingest_job();
                Ok((logger, job))
            },
            Err(e) => Err(e),
        }
    }

    pub fn log_ingester(&self) -> (ingester: &LogIngester<E>)
        ensures
            *ingester == self.ingester(),
    {
        &self.log_ingester
    }

    pub fn logger_options(&self) -> (options: LoggerOptions)
        ensures
            options == self.options(),
    {
        self.options
    }

    /// One tick of the logger's flush job: see [`IngestJob::tick`].
    pub fn tick(&mut self, job: &mut IngestJob) -> (batch: Option<Vec<E>>)
        ensures
            final(self).options() == old(self).options(),
            final(self).ingester().target() == old(self).ingester().target(),
            final(self).ingester().policy() == old(self).ingester().policy(),
            final(job).interval() == old(job).interval(),
            holds_batch(
                batch,
                batch_on_tick(old(job).in_flight(), old(self).ingester().pending()),
            ),
            final(self).ingester().pending() == buffer_after_tick(
                old(job).in_flight(),
                old(self).ingester().pending(),
            ),
            final(job).in_flight() == match batch {
                Some(events) => Some(events.len()),
                None => old(job).in_flight(),
            },
            old(self).ingester().pending().len() == 0 ==> batch is None,
    {
        job.tick(&mut self.log_ingester)
    }
}

impl Logger<StructuredLogEvent> {
    /// Submits the structured event of one logging call, made at
    /// `now_unix_timestamp` milliseconds since the Unix epoch with
    /// `attributes`. The result is the batch to dispatch at once, if any.
    pub fn write_log(&mut self, now_unix_timestamp: u128, attributes: Value) -> (dispatch: Option<
        Vec<StructuredLogEvent>,
    >)
        ensures
            final(self).options() == old(self).options(),
            final(self).ingester().target() == old(self).ingester().target(),
            final(self).ingester().policy() == old(self).ingester().policy(),
            final(self).ingester().pending() == buffer_after_submit(
                old(self).ingester().policy(),
                old(self).ingester().pending(),
                (StructuredLogEvent { timestamp: now_unix_timestamp, attributes }),
            ),
            holds_batch(
                dispatch,
                dispatch_on_submit(
                    old(self).ingester().policy(),
                    (StructuredLogEvent { timestamp: now_unix_timestamp, attributes }),
                ),
            ),
    {
        let log_event = StructuredLogEvent::new(now_unix_timestamp, attributes);
        self.log_ingester.ingest_log_event(log_event)
    }
}

impl Logger<UnstructuredLogEvent> {
    /// Submits the unstructured event of one logging call, whose text is
    /// `message`. The result is the batch to dispatch at once, if any.
    pub fn log(&mut self, message: String) -> (dispatch: Option<Vec<UnstructuredLogEvent>>)
        ensures
            final(self).options() == old(self).options(),
            final(self).ingester().target() == old(self).ingester().target(),
            final(self).ingester().policy() == old(self).ingester().policy(),
            final(self).ingester().pending() == buffer_after_submit(
                old(self).ingester().policy(),
                old(self).ingester().pending(),
                UnstructuredLogEvent::of(message),
            ),
            holds_batch(
                dispatch,
                dispatch_on_submit(
                    old(self).ingester().policy(),
                    UnstructuredLogEvent::of(message),
                ),
            ),
    {
        let log_event = UnstructuredLogEvent::from(message);
        self.log_ingester.ingest_log_event(log_event)
    }
}

} // verus!
