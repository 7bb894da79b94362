use logscale_log::client::{delivery_outcome, LogScaleClient};
use logscale_log::errors::{ConstructionError, LogScaleError};
use logscale_log::events::{StructuredLogEvent, StructuredLogsIngestRequest};
use logscale_log::ingest_job::FlushReport;
use logscale_log::ingester::StructuredLogIngester;
use logscale_log::logger::LogScaleStructuredLogger;
use logscale_log::options::{LoggerIngestPolicy, LoggerOptions};
use std::time::Duration;

const BASE_URL: &str = "https://cloud.community.humio.com";

fn client() -> LogScaleClient {
    LogScaleClient::from_url(BASE_URL, "token".to_string()).unwrap()
}

fn event(timestamp: u128, value: &str) -> StructuredLogEvent {
    let mut attributes = serde_json::Map::new();
    attributes.insert("a".to_string(), serde_json::Value::String(value.to_string()));
    StructuredLogEvent::new(timestamp, serde_json::Value::Object(attributes))
}

fn three_buffered() -> StructuredLogIngester {
    let policy = LoggerIngestPolicy::Periodically(Duration::from_secs(5));
    let mut ingester = StructuredLogIngester::new(client(), policy);
    assert!(ingester.ingest_log_event(event(1, "1")).is_none());
    assert!(ingester.ingest_log_event(event(2, "2")).is_none());
    assert!(ingester.ingest_log_event(event(3, "3")).is_none());
    ingester
}

#[test]
fn periodic_flush_delivers_the_three_buffered_events() {
    let mut ingester = three_buffered();
    let mut job = ingester.start_background_ingest_job().unwrap();
    assert_eq!(job.wait(), Duration::from_secs(5));
    assert!(!job.is_sending());

    // Before the tick the buffer holds all three, in order.
    assert_eq!(ingester.pending_count(), 3);
    assert_eq!(ingester.pending_events(), vec![event(1, "1"), event(2, "2"), event(3, "3")]);

    let batch = job.tick(&mut ingester).unwrap();
    assert_eq!(batch, vec![event(1, "1"), event(2, "2"), event(3, "3")]);
    assert!(job.is_sending());
    assert_eq!(ingester.pending_count(), 0);

    let request = StructuredLogsIngestRequest::from_log_events(&batch);
    assert_eq!(request.events.len(), 3);
    assert!(request.tags.is_empty());

    let report = job.delivered(delivery_outcome(Some(200)));
    assert_eq!(report, FlushReport::Delivered(3));
    assert!(!job.is_sending());
    assert_eq!(ingester.pending_count(), 0);
    assert!(job.tick(&mut ingester).is_none());
}

#[test]
fn rejected_flush_loses_the_batch() {
    let mut ingester = three_buffered();
    let mut job = ingester.start_background_ingest_job().unwrap();
    let batch = job.tick(&mut ingester).unwrap();
    assert_eq!(batch.len(), 3);

    let outcome = delivery_outcome(Some(500));
    assert_eq!(outcome, Err(LogScaleError::ErrorWithStatusCode(500)));
    let report = job.delivered(outcome);
    assert_eq!(report, FlushReport::Lost(3, LogScaleError::ErrorWithStatusCode(500)));

    // The three events are gone: the buffer is empty and the next tick sends nothing.
    assert_eq!(ingester.pending_count(), 0);
    assert!(ingester.pending_events().is_empty());
    assert!(!job.is_sending());
    assert!(job.tick(&mut ingester).is_none());
}

#[test]
fn immediate_submit_dispatches_one_single_event_batch() {
    let mut ingester = StructuredLogIngester::new(client(), LoggerIngestPolicy::Immediately);
    assert!(ingester.start_background_ingest_job().is_none());

    let dispatch = ingester.ingest_log_event(event(7, "1"));
    assert_eq!(dispatch, Some(vec![event(7, "1")]));
    assert_eq!(ingester.pending_count(), 0);
    assert!(ingester.flush().is_none());
}

#[test]
fn malformed_base_url_fails_construction() {
    let client = LogScaleClient::from_url("cloud.community.humio.com", "token".to_string());
    assert_eq!(client.err(), Some(ConstructionError::MalformedUrl));

    let logger = LogScaleStructuredLogger::create(
        "cloud.community.humio.com",
        "token",
        LoggerOptions::default(),
    );
    assert_eq!(logger.err(), Some(ConstructionError::MalformedUrl));

    let started = LogScaleStructuredLogger::init(
        "cloud.community.humio.com".to_string(),
        "token".to_string(),
        LoggerOptions::default(),
    );
    assert_eq!(started.err(), Some(ConstructionError::MalformedUrl));
}

#[test]
fn empty_and_garbled_urls_fail_construction() {
    for url in ["", "://", "http://", "/api/v1", "https://exa mple.net"] {
        let client = LogScaleClient::from_url(url, "token".to_string());
        assert_eq!(client.err(), Some(ConstructionError::MalformedUrl), "{url:?}");
        let parsed = LogScaleClient::from_parsed_url(None, "token".to_string());
        assert_eq!(parsed.err(), Some(ConstructionError::MalformedUrl));
    }
}
