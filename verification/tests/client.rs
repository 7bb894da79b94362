use logscale_log::client::{
    delivery_outcome,
    endpoint_url,
    IngestCall,
    LogScaleClient,
    STATUS_OK,
};
use logscale_log::errors::LogScaleError;

#[test]
fn from_url_keeps_the_url_as_the_parser_serializes_it() {
    let client =
        LogScaleClient::from_url("https://cloud.community.humio.com", "abc".to_string()).unwrap();
    assert_eq!(client.logscale_url(), "https://cloud.community.humio.com/");
    assert_eq!(client.ingest_token(), "abc");

    let client = LogScaleClient::from_url("HTTPS://Example.NET:443/a/../b", String::new()).unwrap();
    assert_eq!(client.logscale_url(), "https://example.net/b");
    assert_eq!(client.ingest_token(), "");
}

#[test]
fn from_parsed_url_takes_the_text_as_it_is() {
    let client =
        LogScaleClient::from_parsed_url(Some("https://example.net/".to_string()), "t".to_string())
            .unwrap();
    assert_eq!(client.logscale_url(), "https://example.net/");
    assert_eq!(client.ingest_token(), "t");
    assert_eq!(client.authorization_header(), "Bearer t");
}

#[test]
fn authorization_header_is_bearer_and_token() {
    let client = LogScaleClient::from_url("https://example.net", "s3cr3t".to_string()).unwrap();
    assert_eq!(client.authorization_header(), "Bearer s3cr3t");
    let client = LogScaleClient::from_url("https://example.net", String::new()).unwrap();
    assert_eq!(client.authorization_header(), "Bearer ");
}

#[test]
fn clone_keeps_url_token_and_header() {
    let client = LogScaleClient::from_url("https://example.net", "abc".to_string()).unwrap();
    let copy = client.clone();
    assert_eq!(copy.logscale_url(), client.logscale_url());
    assert_eq!(copy.ingest_token(), client.ingest_token());
    assert_eq!(copy.authorization_header(), client.authorization_header());
}

#[test]
fn calls_go_to_the_two_ingest_endpoints() {
    let client =
        LogScaleClient::from_url("https://cloud.community.humio.com", "abc".to_string()).unwrap();
    assert_eq!(
        client.structured_call(),
        IngestCall {
            url: "https://cloud.community.humio.com/api/v1/ingest/humio-structured".to_string(),
            authorization: "Bearer abc".to_string(),
        }
    );
    assert_eq!(
        client.unstructured_call(),
        IngestCall {
            url: "https://cloud.community.humio.com/api/v1/ingest/humio-unstructured".to_string(),
            authorization: "Bearer abc".to_string(),
        }
    );
}

#[test]
fn endpoint_keeps_the_path_of_a_base_without_trailing_slash() {
    let client = LogScaleClient::from_url("https://h.example/logscale", "abc".to_string()).unwrap();
    assert_eq!(client.logscale_url(), "https://h.example/logscale");
    assert_eq!(
        client.structured_call().url,
        "https://h.example/logscale/api/v1/ingest/humio-structured"
    );
    assert_eq!(
        client.unstructured_call().url,
        "https://h.example/logscale/api/v1/ingest/humio-unstructured"
    );

    let client = LogScaleClient::from_url("https://example.net/a/b/logs", "t".to_string()).unwrap();
    assert_eq!(
        client.structured_call().url,
        "https://example.net/a/b/logs/api/v1/ingest/humio-structured"
    );
}

#[test]
fn endpoint_keeps_the_path_of_a_base_with_trailing_slash() {
    let client = LogScaleClient::from_url("https://example.net/logs/", "t".to_string()).unwrap();
    assert_eq!(client.logscale_url(), "https://example.net/logs/");
    assert_eq!(
        client.structured_call().url,
        "https://example.net/logs/api/v1/ingest/humio-structured"
    );
    assert_eq!(
        client.unstructured_call().url,
        "https://example.net/logs/api/v1/ingest/humio-unstructured"
    );
}

#[test]
fn endpoint_is_the_same_with_and_without_trailing_slash() {
    let with = LogScaleClient::from_url("https://example.net/logs/", "t".to_string()).unwrap();
    let without = LogScaleClient::from_url("https://example.net/logs", "t".to_string()).unwrap();
    assert_eq!(with.structured_call(), without.structured_call());
    assert_eq!(with.unstructured_call(), without.unstructured_call());
}

#[test]
fn every_client_has_its_calls() {
    let client = LogScaleClient::from_url("mailto:logs@example.net", "t".to_string()).unwrap();
    assert_eq!(client.logscale_url(), "mailto:logs@example.net");
    assert_eq!(
        client.structured_call().url,
        "mailto:logs@example.net/api/v1/ingest/humio-structured"
    );
    assert_eq!(client.structured_call().authorization, "Bearer t");
}

#[test]
fn endpoint_url_drops_one_trailing_slash_and_nothing_else() {
    assert_eq!(endpoint_url("a", "b"), "a/b");
    assert_eq!(endpoint_url("a/", "b"), "a/b");
    assert_eq!(endpoint_url("a//", "b"), "a//b");
    assert_eq!(endpoint_url("", "b"), "/b");
    assert_eq!(endpoint_url("/", "b"), "/b");
    assert_eq!(endpoint_url("a/b", ""), "a/b/");
    assert_eq!(endpoint_url("a/b/c", "d/e"), "a/b/c/d/e");
}

#[test]
fn endpoint_url_counts_characters_not_bytes() {
    assert_eq!(endpoint_url("https://exämple.net/prüf", "p"), "https://exämple.net/prüf/p");
    assert_eq!(endpoint_url("https://exämple.net/prüf/", "p"), "https://exämple.net/prüf/p");
    assert_eq!(endpoint_url("日本/", "語"), "日本/語");
}

#[test]
fn only_status_200_delivers() {
    assert_eq!(STATUS_OK, 200);
    assert_eq!(delivery_outcome(Some(200)), Ok(()));
    assert_eq!(delivery_outcome(Some(201)), Err(LogScaleError::ErrorWithStatusCode(201)));
    assert_eq!(delivery_outcome(Some(204)), Err(LogScaleError::ErrorWithStatusCode(204)));
    assert_eq!(delivery_outcome(Some(199)), Err(LogScaleError::ErrorWithStatusCode(199)));
    assert_eq!(delivery_outcome(Some(401)), Err(LogScaleError::ErrorWithStatusCode(401)));
    assert_eq!(delivery_outcome(Some(500)), Err(LogScaleError::ErrorWithStatusCode(500)));
    assert_eq!(delivery_outcome(Some(0)), Err(LogScaleError::ErrorWithStatusCode(0)));
    assert_eq!(delivery_outcome(Some(u16::MAX)), Err(LogScaleError::ErrorWithStatusCode(u16::MAX)));
}

#[test]
fn no_response_is_a_connection_error() {
    assert_eq!(delivery_outcome(None), Err(LogScaleError::ConnectionError));
}
