//! Log events, and the requests that carry a batch of them.

use serde_json::Value;
use std::collections::HashMap;
use vstd::prelude::*;

verus! {

/// A JSON value of `serde_json`. The pipeline carries it and never looks inside.
#[verifier::external_type_specification]
#[verifier::external_body]
pub struct ExJsonValue(Value);

/// `Value::clone`, which `serde_json` derives, returns a value equal to the one
/// it is called on.
pub assume_specification[ <Value as Clone>::clone ](value: &Value) -> (copy: Value)
    ensures
        copy == *value,
;

/// An event that can sit in the buffer and be copied out of it.
pub trait LogScaleLogEvent: Clone {
    /// A copy that equals the event.
    fn duplicate(&self) -> (copy: Self)
        ensures
            copy == *self,
    ;
}

/// A structured event: a time in milliseconds since the Unix epoch, and
/// attributes as a JSON value.
#[derive(Debug, PartialEq)]
pub struct StructuredLogEvent {
    pub timestamp: u128,
    pub attributes: Value,
}

impl Clone for StructuredLogEvent {
    fn clone(&self) -> (copy: Self)
        ensures
            copy == *self,
    {
        StructuredLogEvent { timestamp: self.timestamp, attributes: self.attributes.clone() }
    }
}

impl StructuredLogEvent {
    pub fn new(timestamp: u128, attributes: Value) -> (event: Self)
        ensures
            event.timestamp == timestamp,
            event.attributes == attributes,
    {
        StructuredLogEvent { timestamp, attributes }
    }
}

impl LogScaleLogEvent for StructuredLogEvent {
    fn duplicate(&self) -> (copy: Self) {
        self.clone()
    }
}

/// An unstructured event: one line of text. The server gives it its time.
#[derive(Debug, PartialEq)]
pub struct UnstructuredLogEvent {
    message: String,
}

impl Clone for UnstructuredLogEvent {
    fn clone(&self) -> (copy: Self)
        ensures
            copy == *self,
    {
        UnstructuredLogEvent { message: self.message.clone() }
    }
}

impl View for UnstructuredLogEvent {
    type V = Seq<char>;

    /// The line of text.
    closed spec fn view(&self) -> Seq<char> {
        self.message@
    }
}

impl UnstructuredLogEvent {
    /// The event whose line of text is `message`.
    pub closed spec fn of(message: String) -> Self {
        UnstructuredLogEvent { message }
    }

    /// The event of a message holds the characters of that message.
    pub proof fn lemma_of_holds_message(message: String)
        ensures
            Self::of(message)@ == message@,
    {
    }

    /// The line of text.
    pub fn message(&self) -> (text: &str)
        ensures
            text@ == self@,
    {
        self.message.as_str()
    }
}

impl From<String> for UnstructuredLogEvent {
    /// The event whose line of text is `value`.
    fn from(value: String) -> (event: Self)
        ensures
            event == Self::of(value),
            event@ == value@,
    {
        UnstructuredLogEvent { message: value }
    }
}

impl vstd::std_specs::convert::FromSpecImpl<String> for UnstructuredLogEvent {
    open spec fn obeys_from_spec() -> bool {
        true
    }

    open spec fn from_spec(value: String) -> Self {
        Self::of(value)
    }
}

impl LogScaleLogEvent for UnstructuredLogEvent {
    fn duplicate(&self) -> (copy: Self) {
        self.clone()
    }
}

/// A batch of structured events, with the tags that apply to all of them.
pub struct StructuredLogsIngestRequest<'a> {
    pub tags: HashMap<String, String>,
    pub events: &'a [StructuredLogEvent],
}

impl<'a> StructuredLogsIngestRequest<'a> {
    /// The batch that holds `log_events`, in their order, and no tags.
    pub fn from_log_events(log_events: &'a [StructuredLogEvent]) -> (request: Self)
        ensures
            request.events@ == log_events@,
            request.tags@ == Map::<String, String>::empty(),
    {
        StructuredLogsIngestRequest { tags: HashMap::new(), events: log_events }
    }
}

/// A batch of unstructured events, with the fields that apply to all of them.
pub struct UnstructuredLogsIngestRequest<'a> {
    pub messages: &'a [UnstructuredLogEvent],
    pub fields: HashMap<&'a str, &'a str>,
}

impl<'a> UnstructuredLogsIngestRequest<'a> {
    /// The batch that holds `log_events`, in their order, and no fields.
    pub fn from_log_events(log_events: &'a [UnstructuredLogEvent]) -> (request: Self)
        ensures
            request.messages@ == log_events@,
            request.fields@ == Map::<&'a str, &'a str>::empty(),
    {
        UnstructuredLogsIngestRequest { messages: log_events, fields: HashMap::new() }
    }
}

} // verus!
