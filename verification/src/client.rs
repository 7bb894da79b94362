//! The client of one LogScale instance: where batches go, and under which token.
//!
//! The client performs no request. It says where a batch is posted and with
//! which header, and what the answer to a request means.

use crate::errors::{ConstructionError, LogScaleError};
use reqwest::Url;
use vstd::prelude::*;
use vstd::string::*;

verus! {

/// What `Url::parse` makes of `input`: the serialization of the URL it returns,
/// or `None` where it rejects `input`.
pub uninterp spec fn url_parse(input: Seq<char>) -> Option<Seq<char>>;

/// Whether `text` holds the characters `expected`, or none where `expected` is `None`.
pub open spec fn holds_text(text: Option<String>, expected: Option<Seq<char>>) -> bool {
    match text {
        Some(t) => expected == Some(t@),
        None => expected is None,
    }
}

/// Calls `Url::parse` on `input` and hands back the parsed URL as text, as
/// `String::from` gives it; `None` where `Url::parse` returns an error. The
/// result is a function of `input` alone, and nothing more is claimed of it.
#[verifier::external_body]
fn parse_url(input: &str) -> (parsed: Option<String>)
    ensures
        holds_text(parsed, url_parse(input@)),
{
    Url::parse(input).ok().map(String::from)
}

/// The status code that stands for a delivered batch.
pub const STATUS_OK: u16 = 200;

/// The path of the endpoint for structured events, below the base URL.
pub open spec fn structured_ingest_path() -> Seq<char> {
    "api/v1/ingest/humio-structured"@
}

/// The path of the endpoint for unstructured events, below the base URL.
pub open spec fn unstructured_ingest_path() -> Seq<char> {
    "api/v1/ingest/humio-unstructured"@
}

/// `url` without its last character, where that is a `/`.
pub open spec fn without_trailing_slash(url: Seq<char>) -> Seq<char> {
    if url.len() > 0 && url.last() == '/' {
        url.drop_last()
    } else {
        url
    }
}

/// The URL of the endpoint at `path` below the base URL `base`: the base
/// without a trailing `/`, then a `/`, then the path. Nothing of the base is
/// dropped but that one `/`, so an instance that is served below a path keeps
/// its path.
pub open spec fn endpoint(base: Seq<char>, path: Seq<char>) -> Seq<char> {
    without_trailing_slash(base) + seq!['/'] + path
}

/// The value of the `Authorization` header for an ingest token.
pub open spec fn bearer(token: Seq<char>) -> Seq<char> {
    "Bearer "@ + token
}

/// What the answer to a request means: `status` is the status code of the
/// response, or `None` where the request could not be sent or got no response.
pub open spec fn outcome_of(status: Option<u16>) -> Result<(), LogScaleError> {
    match status {
        Some(code) => if code == STATUS_OK {
            Ok(())
        } else {
            Err(LogScaleError::ErrorWithStatusCode(code))
        },
        None => Err(LogScaleError::ConnectionError),
    }
}

/// One HTTP POST: the URL it goes to and the value of its `Authorization` header.
#[derive(Debug, PartialEq, Eq)]
pub struct IngestCall {
    pub url: String,
    pub authorization: String,
}

/// A LogScale instance and the token that batches are delivered under.
#[derive(Debug)]
pub struct LogScaleClient {
    logscale_url: String,
    ingest_token: String,
    ingest_token_header_value: String,
}

impl Clone for LogScaleClient {
    fn clone(&self) -> (copy: Self)
        ensures
            copy == *self,
    {
        proof {
            use_type_invariant(self);
        }
        LogScaleClient {
            logscale_url: self.logscale_url.clone(),
            ingest_token: self.ingest_token.clone(),
            ingest_token_header_value: self.ingest_token_header_value.clone(),
        }
    }
}

impl LogScaleClient {
    #[verifier::type_invariant]
    spec fn header_matches_token(self) -> bool {
        self.ingest_token_header_value@ == bearer(self.ingest_token@)
    }

    /// The base URL, as the parser serialized it.
    pub closed spec fn base_url(&self) -> Seq<char> {
        self.logscale_url@
    }

    /// The ingest token.
    pub closed spec fn token(&self) -> Seq<char> {
        self.ingest_token@
    }

    /// The client for the instance at `logscale_url`.
    ///
    /// The URL has to parse as an absolute URL; the client then holds it as the
    /// parser serialized it.
    pub fn from_url(logscale_url: &str, ingest_token: String) -> (client: Result<
        Self,
        ConstructionError,
    >)
        ensures
            match client {
                Ok(c) => url_parse(logscale_url@) == Some(c.base_url()) && c.token()
                    == ingest_token@,
                Err(e) => url_parse(logscale_url@) is None && e == ConstructionError::MalformedUrl,
            },
    {
        Self::from_parsed_url(parse_url(logscale_url), ingest_token)
    }

    /// The client for a base URL that has been parsed already: `parsed` is the
    /// serialized URL, or `None` where parsing failed.
    pub fn from_parsed_url(parsed: Option<String>, ingest_token: String) -> (client: Result<
        Self,
        ConstructionError,
    >)
        ensures
            match client {
                Ok(c) => parsed matches Some(url) && c.base_url() == url@ && c.token()
                    == ingest_token@,
                Err(e) => parsed is None && e == ConstructionError::MalformedUrl,
            },
    {
        match parsed {
            Some(url) => {
                let header = String::from_str("Bearer ").concat(ingest_token.as_str());
                Ok(
                    LogScaleClient {
                        logscale_url: url,
                        ingest_token,
                        ingest_token_header_value: header,
                    },
                )
            },
            None => Err(ConstructionError::MalformedUrl),
        }
    }

    pub fn logscale_url(&self) -> (url: &str)
        ensures
            url@ == self.base_url(),
    {
        self.logscale_url.as_str()
    }

    pub fn ingest_token(&self) -> (token: &str)
        ensures
            token@ == self.token(),
    {
        self.ingest_token.as_str()
    }

    /// The value of the `Authorization` header of every request.
    pub fn authorization_header(&self) -> (header: &str)
        ensures
            header@ == bearer(self.token()),
    {
        proof {
            use_type_invariant(self);
        }
        self.ingest_token_header_value.as_str()
    }

    /// The request that delivers structured events.
    pub fn structured_call(&self) -> (call: IngestCall)
        ensures
            self.is_call_to(call, structured_ingest_path()),
    {
        self.call_to("api/v1/ingest/humio-structured")
    }

    /// The request that delivers unstructured events.
    pub fn unstructured_call(&self) -> (call: IngestCall)
        ensures
            self.is_call_to(call, unstructured_ingest_path()),
    {
        self.call_to("api/v1/ingest/humio-unstructured")
    }

    /// Whether `call` is the request to the endpoint at `path` below the base
    /// URL, under this client's token.
    pub open spec fn is_call_to(&self, call: IngestCall, path: Seq<char>) -> bool {
        &&& call.url@ == endpoint(self.base_url(), path)
        &&& call.authorization@ == bearer(self.token())
    }

    fn call_to(&self, path: &str) -> (call: IngestCall)
        ensures
            self.is_call_to(call, path@),
    {
        proof {
            use_type_invariant(self);
        }
        IngestCall {
            url: endpoint_url(self.logscale_url.as_str(), path),
            authorization: self.ingest_token_header_value.clone(),
        }
    }
}

/// The URL of the endpoint at `path` below the base URL `base`.
pub fn endpoint_url(base: &str, path: &str) -> (url: String)
    ensures
        url@ == endpoint(base@, path@),
{
    let length = base.unicode_len();
    let stem = if length > 0 && base.get_char(length - 1) == '/' {
        base.substring_char(0, length - 1)
    } else {
        base
    };
    proof {
        reveal_strlit("/");
        assert("/"@ =~= seq!['/']);
    }
    String::from_str(stem).concat("/").concat(path)
}

/// What the answer to a request means for the batch it carried.
///
/// `status` is the status code of the response, or `None` where the request
/// could not be sent or no response came. Only status 200 delivers the batch.
pub fn delivery_outcome(status: Option<u16>) -> (outcome: Result<(), LogScaleError>)
    ensures
        outcome == outcome_of(status),
{
    match status {
        Some(code) => if code == STATUS_OK {
            Ok(())
        } else {
            Err(LogScaleError::ErrorWithStatusCode(code))
        },
        None => Err(LogScaleError::ConnectionError),
    }
}

} // verus!
