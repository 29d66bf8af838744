//! Turning an event into the payload that a sink writes.

use crate::event::{
    distinct_names, has_field, message_text, structured, Event, EventView, FieldValue, FieldView,
    Fields, LogEvent, Metric, MetricView, MESSAGE,
};
use crate::json::{
    has_member, integer_number, json_members, json_text, map_insert, map_new, map_to_string,
    map_to_vec, number_from_integer, value_from_number, value_from_text, JsonMembers, JsonValue,
};
use crate::payload::{bytes_from_vec, bytes_view};
use vstd::prelude::*;
use vstd::string::*;
use vstd::utf8::encode_utf8;

verus! {

/// How an event is serialised.
#[derive(Debug, Clone, Copy, PartialEq, Eq)]
pub enum BasicEncoding {
    Text,
    Json,
}

/// The JSON value for a field value: the string of a text, the number of
/// an integer.
pub open spec fn field_json(value: FieldView) -> JsonValue {
    match value {
        FieldView::Text(s) => JsonValue::Text(s),
        FieldView::Integer(n) => JsonValue::Number(integer_number(n)),
    }
}

/// The JSON object for a log: one member per field, in the fields' order.
pub open spec fn log_json(fields: Fields) -> JsonMembers {
    Seq::new(fields.len(), |i: int| (fields[i].0, field_json(fields[i].1)))
}

/// The JSON object for a metric: its kind under `type`, then `name` and `val`.
pub open spec fn metric_json(metric: MetricView) -> JsonMembers {
    match metric {
        MetricView::Counter { name, val } => seq![
            ("type"@, JsonValue::Text("counter"@)),
            ("name"@, JsonValue::Text(name)),
            ("val"@, JsonValue::Number(val)),
        ],
    }
}

/// Whether a log is serialised as JSON: when the encoding says so, or when
/// none is set and the log is structured.
pub open spec fn json_chosen(fields: Fields, encoding: Option<BasicEncoding>) -> bool {
    encoding == Some(BasicEncoding::Json) || (encoding is None && structured(fields))
}

/// The JSON object serialised for an event, or `None` where the event is
/// written as the text of its message.
pub open spec fn json_of(event: EventView, encoding: Option<BasicEncoding>) -> Option<JsonMembers> {
    match event {
        EventView::Log(fields) => if json_chosen(fields, encoding) {
            Some(log_json(fields))
        } else {
            None
        },
        EventView::Metric(metric) => Some(metric_json(metric)),
    }
}

/// The payload of an event: the JSON text of its object, or the UTF-8 bytes
/// of its message. `None` where the JSON serialiser fails.
pub open spec fn encoded(event: EventView, encoding: Option<BasicEncoding>) -> Option<Seq<u8>> {
    match json_of(event, encoding) {
        Some(members) => json_text(members),
        None => Some(encode_utf8(message_text(event.fields()))),
    }
}

/// The encoding decides for a log alone: a metric is serialised as JSON
/// under every encoding; a log is JSON under the JSON encoding and the text
/// of its message under the text encoding; with no encoding set, a
/// structured log is JSON and an unstructured one is text.
pub proof fn encoding_modes(fields: Fields, metric: MetricView, encoding: Option<BasicEncoding>)
    ensures
        encoded(EventView::Metric(metric), encoding) == json_text(metric_json(metric)),
        encoded(EventView::Log(fields), Some(BasicEncoding::Json)) == json_text(log_json(fields)),
        encoded(EventView::Log(fields), Some(BasicEncoding::Text)) == Some(
            encode_utf8(message_text(fields)),
        ),
        structured(fields) ==> encoded(EventView::Log(fields), None) == json_text(
            log_json(fields),
        ),
        !structured(fields) ==> encoded(EventView::Log(fields), None) == Some(
            encode_utf8(message_text(fields)),
        ),
        !has_field(fields, MESSAGE@) ==> message_text(fields) == Seq::<char>::empty(),
{
}

/// The JSON object of a log, built member by member.
fn log_members(log: &LogEvent) -> (m: serde_json::Map<String, serde_json::Value>)
    ensures
        json_members(m) == log_json(log@),
{
    let mut m = map_new();
    let n = log.len();
    let mut i: usize = 0;
    while i < n
        invariant
            i <= n,
            n == log@.len(),
            distinct_names(log@),
            json_members(m) == log_json(log@).take(i as int),
        decreases n - i,
    {
        let name = log.name_at(i);
        let v = match log.value_at(i) {
            FieldValue::Text(s) => value_from_text(s.as_str()),
            FieldValue::Integer(k) => value_from_number(&number_from_integer(*k)),
        };
        map_insert(&mut m, name.as_str(), v);
        i = i + 1;
    }
    m
}

/// The JSON object of a metric.
fn metric_members(metric: &Metric) -> (m: serde_json::Map<String, serde_json::Value>)
    ensures
        json_members(m) == metric_json(metric@),
{
    proof {
        reveal_strlit("type");
        reveal_strlit("name");
        reveal_strlit("val");
    }
    let mut m = map_new();
    let (kind, name, val) = match metric {
        Metric::Counter { name, val } => ("counter", name, val),
    };
    map_insert(&mut m, "type", value_from_text(kind));
    assert(!has_member(json_members(m), "name"@)) by {
        assert("type"@[0] != "name"@[0]);
    }
    map_insert(&mut m, "name", value_from_text(name.as_str()));
    assert(!has_member(json_members(m), "val"@)) by {
        assert("name"@[0] != "val"@[0]);
    }
    map_insert(&mut m, "val", value_from_number(val));
    m
}

/// The JSON object that is serialised for `event`, if one is.
fn event_members(event: &Event, encoding: &Option<BasicEncoding>) -> (r: Option<
    serde_json::Map<String, serde_json::Value>,
>)
    ensures
        match r {
            Some(m) => json_of(event@, *encoding) == Some(json_members(m)),
            None => json_of(event@, *encoding) is None,
        },
{
    match event {
        Event::Log(log) => {
            let json = match encoding {
                Some(BasicEncoding::Json) => true,
                Some(BasicEncoding::Text) => false,
                None => log.is_structured(),
            };
            if json {
                Some(log_members(log))
            } else {
                None
            }
        },
        Event::Metric(metric) => Some(metric_members(metric)),
    }
}

/// The message of an event as a string: the text of the message field of a
/// log, empty where there is none.
fn message_string(event: &Event) -> (s: String)
    ensures
        s@ == message_text(event@.fields()),
{
    match event {
        Event::Log(log) => match log.get(MESSAGE) {
            Some(value) => value.to_string_lossy(),
            None => String::new(),
        },
        Event::Metric(_) => String::new(),
    }
}

/// What a sink makes of the serialiser's answer: the text, or the failure.
pub fn serialized_string(answer: Result<String, serde_json::Error>) -> (r: Result<String, ()>)
    ensures
        match answer {
            Ok(text) => r == Ok::<String, ()>(text),
            Err(_) => r is Err,
        },
{
    match answer {
        Ok(text) => Ok(text),
        Err(_) => Err(()),
    }
}

/// What a sink makes of the serialiser's answer: the bytes, or the failure.
pub fn serialized_bytes(answer: Result<Vec<u8>, serde_json::Error>) -> (r: Result<Vec<u8>, ()>)
    ensures
        match answer {
            Ok(bytes) => r == Ok::<Vec<u8>, ()>(bytes),
            Err(_) => r is Err,
        },
{
    match answer {
        Ok(bytes) => Ok(bytes),
        Err(_) => Err(()),
    }
}

/// Serialises an event for display. A metric, a log under the JSON
/// encoding, and a structured log with no encoding set become the JSON text
/// of their object; any other log becomes the text of its message. Fails
/// only where the JSON serialiser does.
pub fn event_as_string(event: Event, encoding: &Option<BasicEncoding>) -> (r: Result<String, ()>)
    ensures
        match encoded(event@, *encoding) {
            Some(bytes) => r matches Ok(s) && encode_utf8(s@) == bytes,
            None => r is Err,
        },
        json_of(event@, *encoding) is None ==> (r matches Ok(s) && s@ == message_text(
            event@.fields(),
        )),
{
    match event_members(&event, encoding) {
        Some(m) => serialized_string(map_to_string(&m)),
        None => Ok(message_string(&event)),
    }
}

/// Serialises an event as bytes, as [`event_as_string`] does as text.
pub fn log_event_as_raw_bytes(event: &Event, encoding: &Option<BasicEncoding>) -> (r: Result<
    Vec<u8>,
    (),
>)
    ensures
        match encoded(event@, *encoding) {
            Some(bytes) => r matches Ok(v) && v@ == bytes,
            None => r is Err,
        },
{
    match event_members(event, encoding) {
        Some(m) => serialized_bytes(map_to_vec(&m)),
        None => Ok(message_string(event).as_str().as_bytes_vec()),
    }
}

/// Serialises an event as a payload.
pub fn log_event_as_bytes(event: Event, encoding: &Option<BasicEncoding>) -> (r: Result<
    bytes::Bytes,
    (),
>)
    ensures
        match encoded(event@, *encoding) {
            Some(bytes) => r matches Ok(b) && bytes_view(b) == bytes,
            None => r is Err,
        },
{
    match log_event_as_raw_bytes(&event, encoding) {
        Ok(bytes) => Ok(bytes_from_vec(bytes)),
        Err(_) => Err(()),
    }
}

/// The line feed that ends a line.
pub const NEWLINE: u8 = 10;

/// Serialises an event as one line: its payload and a line feed.
pub fn log_event_as_line(event: &Event, encoding: &Option<BasicEncoding>) -> (r: Result<
    bytes::Bytes,
    (),
>)
    ensures
        match encoded(event@, *encoding) {
            Some(bytes) => r matches Ok(b) && bytes_view(b) == bytes.push(NEWLINE),
            None => r is Err,
        },
{
    match log_event_as_raw_bytes(event, encoding) {
        Ok(bytes) => {
            let mut bytes = bytes;
            bytes.push(NEWLINE);
            Ok(bytes_from_vec(bytes))
        },
        Err(_) => Err(()),
    }
}

/// Serialises an event as one line: its payload and a line feed.
pub fn log_event_as_bytes_with_nl(event: Event, encoding: &Option<BasicEncoding>) -> (r: Result<
    bytes::Bytes,
    (),
>)
    ensures
        match encoded(event@, *encoding) {
            Some(bytes) => r matches Ok(b) && bytes_view(b) == bytes.push(NEWLINE),
            None => r is Err,
        },
{
    log_event_as_line(&event, encoding)
}

} // verus!
