use serde_json::{Number, Value};
use vector::event::{Event, FieldValue, LogEvent, Metric};
use vector::sinks::util::encoding::{
    event_as_string, log_event_as_bytes, log_event_as_bytes_with_nl, log_event_as_line,
    log_event_as_raw_bytes, serialized_bytes, serialized_string, BasicEncoding,
};

fn structured_log() -> LogEvent {
    let mut log = LogEvent::new();
    log.insert("a", FieldValue::Integer(1));
    log.insert("msg", FieldValue::Text("x".to_string()));
    log
}

fn parsed(bytes: &[u8]) -> Value {
    serde_json::from_slice(bytes).unwrap()
}

#[test]
fn encodes_raw_logs() {
    let event = Event::from("foo");
    assert_eq!(Ok("foo".to_string()), event_as_string(event, &None));
}

#[test]
fn encodes_metrics() {
    let event = Event::Metric(Metric::Counter {
        name: "foos".into(),
        val: Number::from_f64(100.0).unwrap(),
    });
    assert_eq!(
        Ok(r#"{"type":"counter","name":"foos","val":100.0}"#.to_string()),
        event_as_string(event, &None)
    );
}

#[test]
fn a_metric_under_the_text_encoding_is_json() {
    let event = Event::Metric(Metric::Counter { name: "load".into(), val: Number::from(3) });
    assert_eq!(
        Ok(r#"{"type":"counter","name":"load","val":3}"#.to_string()),
        event_as_string(event, &Some(BasicEncoding::Text))
    );
}

#[test]
fn metrics_are_json_under_every_encoding() {
    let expected = r#"{"type":"counter","name":"n","val":1.5}"#.as_bytes().to_vec();
    for encoding in [None, Some(BasicEncoding::Text), Some(BasicEncoding::Json)] {
        let event = Event::Metric(Metric::Counter {
            name: "n".into(),
            val: Number::from_f64(1.5).unwrap(),
        });
        assert_eq!(Ok(expected.clone()), log_event_as_raw_bytes(&event, &encoding));
    }
}

#[test]
fn json_encoding_round_trips_a_structured_log() {
    let bytes =
        log_event_as_bytes(Event::Log(structured_log()), &Some(BasicEncoding::Json)).unwrap();
    let mut expected = serde_json::Map::new();
    expected.insert("a".to_string(), Value::from(1));
    expected.insert("msg".to_string(), Value::from("x"));
    assert_eq!(parsed(&bytes), Value::Object(expected));
}

#[test]
fn json_members_keep_the_order_of_the_fields() {
    let text = event_as_string(Event::Log(structured_log()), &Some(BasicEncoding::Json));
    assert_eq!(text, Ok(r#"{"a":1,"msg":"x"}"#.to_string()));
}

#[test]
fn text_encoding_gives_exactly_the_message() {
    let bytes =
        log_event_as_bytes(Event::Log(structured_log()), &Some(BasicEncoding::Text)).unwrap();
    assert_eq!(&bytes[..], b"x");
    let text = event_as_string(Event::Log(structured_log()), &Some(BasicEncoding::Text));
    assert_eq!(text, Ok("x".to_string()));
}

#[test]
fn structured_log_defaults_to_json() {
    let text = event_as_string(Event::Log(structured_log()), &None);
    assert_eq!(text, Ok(r#"{"a":1,"msg":"x"}"#.to_string()));
}

#[test]
fn unstructured_log_defaults_to_text() {
    let bytes = log_event_as_bytes(Event::from("plain"), &None).unwrap();
    assert_eq!(&bytes[..], b"plain");
}

#[test]
fn unstructured_log_under_json_is_an_object() {
    let text = event_as_string(Event::from("plain"), &Some(BasicEncoding::Json));
    assert_eq!(text, Ok(r#"{"msg":"plain"}"#.to_string()));
}

#[test]
fn text_of_a_log_without_message_is_empty() {
    let mut log = LogEvent::new();
    log.insert("user", FieldValue::Text("a".to_string()));
    let bytes = log_event_as_bytes(Event::Log(log), &Some(BasicEncoding::Text)).unwrap();
    assert_eq!(&bytes[..], b"");
    assert_eq!(event_as_string(Event::Log(LogEvent::new()), &None), Ok(String::new()));
}

#[test]
fn text_of_a_typed_message_is_its_textual_form() {
    let mut log = LogEvent::new();
    log.insert("msg", FieldValue::Integer(-42));
    assert_eq!(event_as_string(Event::Log(log), &None), Ok("-42".to_string()));
}

#[test]
fn json_holds_typed_values_and_escapes_text() {
    let mut log = LogEvent::new();
    log.insert("n", FieldValue::Integer(-7));
    log.insert("s", FieldValue::Text("a\"b\n".to_string()));
    let text = event_as_string(Event::Log(log), &None);
    assert_eq!(text, Ok(r#"{"n":-7,"s":"a\"b\n"}"#.to_string()));
}

#[test]
fn line_variant_appends_one_line_feed() {
    let bytes = log_event_as_bytes_with_nl(Event::from("hello"), &None).unwrap();
    assert_eq!(&bytes[..], b"hello\n");
    let bytes =
        log_event_as_bytes_with_nl(Event::Log(structured_log()), &Some(BasicEncoding::Json))
            .unwrap();
    assert_eq!(&bytes[..], b"{\"a\":1,\"msg\":\"x\"}\n");
    let event = Event::from("by reference");
    let bytes = log_event_as_line(&event, &None).unwrap();
    assert_eq!(&bytes[..], b"by reference\n");
}

#[test]
fn text_is_written_as_utf8() {
    let bytes = log_event_as_raw_bytes(&Event::from("héllo ✓"), &None).unwrap();
    assert_eq!(bytes, "héllo ✓".as_bytes().to_vec());
}

#[test]
fn a_serialiser_failure_is_the_only_error() {
    let failure = serde_json::from_str::<Value>("{").unwrap_err();
    assert_eq!(serialized_string(Err(failure)), Err(()));
    let failure = serde_json::from_str::<Value>("{").unwrap_err();
    assert_eq!(serialized_bytes(Err(failure)), Err(()));
    assert_eq!(serialized_string(Ok("{}".to_string())), Ok("{}".to_string()));
    assert_eq!(serialized_bytes(Ok(vec![1, 2])), Ok(vec![1, 2]));
}

#[test]
fn an_integer_field_and_a_number_are_written_alike() {
    let mut log = LogEvent::new();
    log.insert("val", FieldValue::Integer(3));
    log.insert("low", FieldValue::Integer(i64::MIN));
    assert_eq!(
        event_as_string(Event::Log(log), &Some(BasicEncoding::Json)),
        Ok(r#"{"val":3,"low":-9223372036854775808}"#.to_string())
    );
    let metric = Event::Metric(Metric::Counter { name: "n".into(), val: Number::from(3) });
    assert_eq!(event_as_string(metric, &None), Ok(r#"{"type":"counter","name":"n","val":3}"#.to_string()));
}
