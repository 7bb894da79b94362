//! A client-side pipeline that ships log events to a LogScale ingest endpoint.
//!
//! Events are either delivered one by one, as soon as they are submitted, or
//! collected in a buffer that a periodic job drains and delivers as one batch.
//! This crate holds the rules of that pipeline: what a submission does to the
//! buffer, when a batch leaves it, and what a delivery outcome means. Sending
//! bytes over the network, waiting for a timer and synchronising producers are
//! left to the program that embeds it.

pub mod cache;
pub mod client;
pub mod errors;
pub mod events;
pub mod ingest_job;
pub mod ingester;
pub mod logger;
pub mod options;
pub mod pipeline;
