//! The delivery policy of a logger, chosen once when it is built.

use std::time::Duration;
use vstd::prelude::*;

verus! {

/// The duration that `Duration::from_secs` builds from a number of seconds.
pub uninterp spec fn duration_from_secs(secs: u64) -> Duration;

/// `Duration::from_secs` is a function of its argument: the same number of
/// seconds always gives the same duration. Nothing else is claimed of it.
pub assume_specification[ Duration::from_secs ](secs: u64) -> (duration: Duration)
    ensures
        duration == duration_from_secs(secs),
;

/// When submitted events are delivered.
#[derive(Debug, Clone, Copy, PartialEq)]
pub enum LoggerIngestPolicy {
    /// Each event is delivered on its own, as soon as it is submitted.
    Immediately,
    /// Events are buffered, and the buffer is delivered once per interval.
    Periodically(Duration),
}

/// The options a logger is built with.
#[derive(Debug, Clone, Copy, PartialEq)]
pub struct LoggerOptions {
    pub ingest_policy: LoggerIngestPolicy,
}

/// The number of seconds between two flushes when no interval is chosen.
pub const DEFAULT_INTERVAL_SECS: u64 = 5;

impl Default for LoggerOptions {
    /// Periodic delivery, every five seconds.
    fn default() -> (options: Self)
        ensures
            options.ingest_policy == LoggerIngestPolicy::Periodically(
                duration_from_secs(DEFAULT_INTERVAL_SECS),
            ),
    {
        LoggerOptions {
            ingest_policy: LoggerIngestPolicy::Periodically(
                Duration::from_secs(DEFAULT_INTERVAL_SECS),
            ),
        }
    }
}

impl LoggerOptions {
    pub fn new(ingest_policy: LoggerIngestPolicy) -> (options: Self)
        ensures
            options.ingest_policy == ingest_policy,
    {
        LoggerOptions { ingest_policy }
    }
}

} // verus!
