use vector::event::{Event, FieldValue, LogEvent, MESSAGE};
use vector::text::integer_to_string;

#[test]
fn a_new_log_has_no_fields() {
    let log = LogEvent::new();
    assert_eq!(log.len(), 0);
    assert!(!log.is_structured());
    assert_eq!(log.get("msg"), None);
}

#[test]
fn from_message_sets_only_the_message() {
    let log = LogEvent::from_message("foo");
    assert_eq!(log.len(), 1);
    assert_eq!(log.name_at(0), "msg");
    assert_eq!(log.value_at(0), &FieldValue::Text("foo".to_string()));
    assert_eq!(log.get(MESSAGE), Some(&FieldValue::Text("foo".to_string())));
    assert!(!log.is_structured());
    assert_eq!(Event::from("foo"), Event::Log(log));
}

#[test]
fn insert_appends_new_names_in_order() {
    let mut log = LogEvent::from_message("m");
    log.insert("user", FieldValue::Text("a".to_string()));
    log.insert("count", FieldValue::Integer(3));
    assert_eq!(log.len(), 3);
    assert_eq!(log.name_at(1), "user");
    assert_eq!(log.name_at(2), "count");
    assert_eq!(log.get("count"), Some(&FieldValue::Integer(3)));
    assert_eq!(log.get("absent"), None);
    assert!(log.is_structured());
}

#[test]
fn insert_replaces_a_present_name_in_place() {
    let mut log = LogEvent::new();
    log.insert("a", FieldValue::Integer(1));
    log.insert("b", FieldValue::Integer(2));
    log.insert("a", FieldValue::Text("one".to_string()));
    assert_eq!(log.len(), 2);
    assert_eq!(log.name_at(0), "a");
    assert_eq!(log.value_at(0), &FieldValue::Text("one".to_string()));
    assert_eq!(log.value_at(1), &FieldValue::Integer(2));
}

#[test]
fn a_log_with_another_field_alone_is_structured() {
    let mut log = LogEvent::new();
    log.insert("user", FieldValue::Text("a".to_string()));
    assert!(log.is_structured());
}

#[test]
fn as_log_tells_logs_from_metrics() {
    let event = Event::from("x");
    assert_eq!(event.as_log(), Some(&LogEvent::from_message("x")));
    let metric = Event::Metric(vector::event::Metric::Counter {
        name: "n".to_string(),
        val: serde_json::Number::from(1),
    });
    assert_eq!(metric.as_log(), None);
}

#[test]
fn textual_forms_of_values() {
    assert_eq!(FieldValue::Text("abc".to_string()).to_string_lossy(), "abc");
    assert_eq!(FieldValue::Integer(0).to_string_lossy(), "0");
    assert_eq!(FieldValue::Integer(1905).to_string_lossy(), "1905");
    assert_eq!(FieldValue::Integer(-10).to_string_lossy(), "-10");
}

#[test]
fn decimal_numerals_at_the_limits() {
    assert_eq!(integer_to_string(i64::MAX), "9223372036854775807");
    assert_eq!(integer_to_string(i64::MIN), "-9223372036854775808");
    assert_eq!(integer_to_string(9), "9");
    assert_eq!(integer_to_string(10), "10");
    assert_eq!(integer_to_string(-1), "-1");
}
