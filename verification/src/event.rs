//! Events: logs, which map field names to typed values, and metrics.

use crate::text::{integer_text, integer_to_string};
use vstd::prelude::*;
use vstd::string::*;

verus! {

/// The name of the field that holds a log's message.
pub const MESSAGE: &'static str = "msg";

/// The value of one field of a log.
#[derive(Debug, PartialEq, Eq)]
pub enum FieldValue {
    Text(String),
    Integer(i64),
}

/// What a [`FieldValue`] holds, as contracts see it.
pub enum FieldView {
    Text(Seq<char>),
    Integer(int),
}

impl FieldView {
    /// The textual form of a value: a text as it is, an integer as its
    /// decimal numeral.
    pub open spec fn text(self) -> Seq<char> {
        match self {
            FieldView::Text(s) => s,
            FieldView::Integer(n) => integer_text(n),
        }
    }
}

impl View for FieldValue {
    type V = FieldView;

    open spec fn view(&self) -> FieldView {
        match self {
            FieldValue::Text(s) => FieldView::Text(s@),
            FieldValue::Integer(n) => FieldView::Integer(*n as int),
        }
    }
}

impl FieldValue {
    /// The textual form of the value.
    pub fn to_string_lossy(&self) -> (s: String)
        ensures
            s@ == self@.text(),
    {
        match self {
            FieldValue::Text(s) => s.clone(),
            FieldValue::Integer(n) => integer_to_string(*n),
        }
    }
}

/// The fields of a log: names and values, in the order of their insertion.
pub type Fields = Seq<(Seq<char>, FieldView)>;

/// Whether some field has the given name.
pub open spec fn has_field(fields: Fields, name: Seq<char>) -> bool {
    exists|i: int| 0 <= i < fields.len() && (#[trigger] fields[i]).0 == name
}

/// The place of a field with the given name, where there is one.
pub open spec fn field_index(fields: Fields, name: Seq<char>) -> int {
    choose|i: int| 0 <= i < fields.len() && (#[trigger] fields[i]).0 == name
}

/// The value of a field with the given name, where there is one.
pub open spec fn field(fields: Fields, name: Seq<char>) -> FieldView {
    fields[field_index(fields, name)].1
}

/// No two fields share a name.
pub open spec fn distinct_names(fields: Fields) -> bool {
    forall|i: int, j: int|
        0 <= i < j < fields.len() ==> (#[trigger] fields[i]).0 != (#[trigger] fields[j]).0
}

/// A log is structured when it has a field beyond the bare message.
pub open spec fn structured(fields: Fields) -> bool {
    exists|i: int| 0 <= i < fields.len() && (#[trigger] fields[i]).0 != MESSAGE@
}

/// The text of the message field, empty where the log has none.
pub open spec fn message_text(fields: Fields) -> Seq<char> {
    if has_field(fields, MESSAGE@) {
        field(fields, MESSAGE@).text()
    } else {
        Seq::empty()
    }
}

/// A log event: a mapping from field names to values.
#[derive(Debug, PartialEq, Eq)]
pub struct LogEvent {
    fields: Vec<(String, FieldValue)>,
}

impl View for LogEvent {
    type V = Fields;

    closed spec fn view(&self) -> Fields {
        Seq::new(self.fields@.len(), |i: int| (self.fields@[i].0@, self.fields@[i].1@))
    }
}

impl LogEvent {
    #[verifier::type_invariant]
    spec fn well_formed(&self) -> bool {
        distinct_names(self@)
    }

    /// A log without fields.
    pub fn new() -> (log: LogEvent)
        ensures
            log@ == Fields::empty(),
    {
        let log = LogEvent { fields: Vec::new() };
        log
    }

    /// An unstructured log: the message is its only field.
    pub fn from_message(message: &str) -> (log: LogEvent)
        ensures
            log@ == seq![(MESSAGE@, FieldView::Text(message@))],
    {
        let mut fields: Vec<(String, FieldValue)> = Vec::new();
        fields.push((String::from_str(MESSAGE), FieldValue::Text(String::from_str(message))));
        let log = LogEvent { fields };
        log
    }

    /// The number of fields, whose names are distinct.
    pub fn len(&self) -> (n: usize)
        ensures
            n == self@.len(),
            distinct_names(self@),
    {
        proof {
            use_type_invariant(self);
        }
        self.fields.len()
    }

    /// The name of the field at place `i`.
    pub fn name_at(&self, i: usize) -> (name: &String)
        requires
            i < self@.len(),
        ensures
            name@ == self@[i as int].0,
    {
        &self.fields[i].0
    }

    /// The value of the field at place `i`.
    pub fn value_at(&self, i: usize) -> (value: &FieldValue)
        requires
            i < self@.len(),
        ensures
            value@ == self@[i as int].1,
    {
        &self.fields[i].1
    }

    fn position(&self, name: &String) -> (r: Option<usize>)
        ensures
            match r {
                Some(i) => i < self@.len() && self@[i as int].0 == name@,
                None => !has_field(self@, name@),
            },
    {
        let mut i: usize = 0;
        while i < self.fields.len()
            invariant
                i <= self.fields@.len(),
                forall|j: int| 0 <= j < i ==> (#[trigger] self@[j]).0 != name@,
            decreases self.fields@.len() - i,
        {
            if self.fields[i].0 == *name {
                return Some(i);
            }
            i = i + 1;
        }
        None
    }

    /// The value of the field `name`, if the log has it.
    pub fn get(&self, name: &str) -> (r: Option<&FieldValue>)
        ensures
            match r {
                Some(value) => has_field(self@, name@) && value@ == field(self@, name@),
                None => !has_field(self@, name@),
            },
    {
        let key = String::from_str(name);
        match self.position(&key) {
            Some(i) => {
                proof {
                    use_type_invariant(self);
                }
                Some(&self.fields[i].1)
            },
            None => None,
        }
    }

    /// Sets the field `name` to `value`: a field of that name keeps its
    /// place and takes the new value, a new name becomes the last field.
    pub fn insert(&mut self, name: &str, value: FieldValue)
        ensures
            has_field(old(self)@, name@) ==> final(self)@ == old(self)@.update(
                field_index(old(self)@, name@),
                (name@, value@),
            ),
            !has_field(old(self)@, name@) ==> final(self)@ == old(self)@.push((name@, value@)),
    {
        let key = String::from_str(name);
        proof {
            use_type_invariant(&*self);
        }
        let found = self.position(&key);
        let mut fields: Vec<(String, FieldValue)> = Vec::new();
        std::mem::swap(&mut fields, &mut self.fields);
        match found {
            Some(i) => {
                fields.set(i, (key, value));
            },
            None => {
                fields.push((key, value));
            },
        }
        let ghost updated = Seq::new(fields@.len(), |i: int| (fields@[i].0@, fields@[i].1@));
        assert(has_field(old(self)@, name@) ==> updated == old(self)@.update(
            field_index(old(self)@, name@),
            (name@, value@),
        ));
        assert(!has_field(old(self)@, name@) ==> updated == old(self)@.push((name@, value@)));
        self.fields = fields;
    }

    /// Whether the log has a field beyond the bare message.
    pub fn is_structured(&self) -> (r: bool)
        ensures
            r == structured(self@),
    {
        let message = String::from_str(MESSAGE);
        let mut i: usize = 0;
        while i < self.fields.len()
            invariant
                i <= self.fields@.len(),
                message@ == MESSAGE@,
                forall|j: int| 0 <= j < i ==> (#[trigger] self@[j]).0 == MESSAGE@,
            decreases self.fields@.len() - i,
        {
            if !(self.fields[i].0 == message) {
                assert(self@[i as int].0 != MESSAGE@);
                return true;
            }
            i = i + 1;
        }
        false
    }
}

/// A metric: a named numeric measurement.
#[derive(Debug, PartialEq, Eq)]
pub enum Metric {
    Counter { name: String, val: serde_json::Number },
}

/// What a [`Metric`] holds, as contracts see it.
pub enum MetricView {
    Counter { name: Seq<char>, val: serde_json::Number },
}

impl View for Metric {
    type V = MetricView;

    open spec fn view(&self) -> MetricView {
        match self {
            Metric::Counter { name, val } => MetricView::Counter { name: name@, val: *val },
        }
    }
}

/// An event: a log or a metric.
#[derive(Debug, PartialEq, Eq)]
pub enum Event {
    Log(LogEvent),
    Metric(Metric),
}

/// What an [`Event`] holds, as contracts see it.
pub enum EventView {
    Log(Fields),
    Metric(MetricView),
}

impl View for Event {
    type V = EventView;

    open spec fn view(&self) -> EventView {
        match self {
            Event::Log(log) => EventView::Log(log@),
            Event::Metric(metric) => EventView::Metric(metric@),
        }
    }
}

impl EventView {
    /// The fields that a template or an encoder finds in the event: those
    /// of a log, none for a metric.
    pub open spec fn fields(self) -> Fields {
        match self {
            EventView::Log(fields) => fields,
            EventView::Metric(_) => Fields::empty(),
        }
    }
}

impl Event {
    /// An unstructured log event with the given message.
    pub fn from(message: &str) -> (event: Event)
        ensures
            event@ == EventView::Log(seq![(MESSAGE@, FieldView::Text(message@))]),
    {
        Event::Log(LogEvent::from_message(message))
    }

    /// The log inside the event, if it is one.
    pub fn as_log(&self) -> (r: Option<&LogEvent>)
        ensures
            match r {
                Some(log) => self@ == EventView::Log(log@) && distinct_names(log@),
                None => self@ is Metric,
            },
    {
        match self {
            Event::Log(log) => {
                proof {
                    use_type_invariant(log);
                }
                Some(log)
            },
            Event::Metric(_) => None,
        }
    }
}

} // verus!
