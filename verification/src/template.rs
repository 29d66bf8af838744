//! Templates that render a destination key from the fields of an event.
//!
//! A template is text with placeholders. A placeholder is `{{`, a field
//! name, and the first `}}` that follows; it renders as the textual form of
//! that field. Everything else renders as itself.

use crate::event::{field, has_field, Event, Fields};
use crate::text::{push_chars, string_from_chars};
use vstd::prelude::*;

verus! {

/// Whether `{{` stands at place `i`.
pub open spec fn opens_at(s: Seq<char>, i: int) -> bool {
    0 <= i && i + 1 < s.len() && s[i] == '{' && s[i + 1] == '{'
}

/// Whether `}}` stands at place `i`.
pub open spec fn closes_at(s: Seq<char>, i: int) -> bool {
    0 <= i && i + 1 < s.len() && s[i] == '}' && s[i + 1] == '}'
}

/// The first place at or after `from` at which `}}` stands, or -1.
pub open spec fn close_from(s: Seq<char>, from: int) -> int
    decreases s.len() - from,
{
    if from < 0 || from + 1 >= s.len() {
        -1
    } else if closes_at(s, from) {
        from
    } else {
        close_from(s, from + 1)
    }
}

/// Whether a placeholder starts at place `i`: `{{` stands there and `}}`
/// follows it.
pub open spec fn placeholder_at(s: Seq<char>, i: int) -> bool {
    opens_at(s, i) && i + 2 <= close_from(s, i + 2) < s.len() - 1
}

/// The field name of the placeholder that starts at place `i`.
pub open spec fn name_at(s: Seq<char>, i: int) -> Seq<char> {
    s.subrange(i + 2, close_from(s, i + 2))
}

/// What the template renders from place `i` on: a placeholder gives the
/// text of its field, or nothing where the field is absent.
pub open spec fn rendered_from(s: Seq<char>, i: int, fields: Fields) -> Seq<char>
    decreases s.len() - i,
{
    if i < 0 || i >= s.len() {
        Seq::empty()
    } else if placeholder_at(s, i) {
        let text = if has_field(fields, name_at(s, i)) {
            field(fields, name_at(s, i)).text()
        } else {
            Seq::empty()
        };
        text + rendered_from(s, close_from(s, i + 2) + 2, fields)
    } else {
        seq![s[i]] + rendered_from(s, i + 1, fields)
    }
}

/// The names of the placeholders from place `i` on whose field is absent,
/// one for each such placeholder, in the template's order.
pub open spec fn missing_from(s: Seq<char>, i: int, fields: Fields) -> Seq<Seq<char>>
    decreases s.len() - i,
{
    if i < 0 || i >= s.len() {
        Seq::empty()
    } else if placeholder_at(s, i) {
        let names = if has_field(fields, name_at(s, i)) {
            Seq::empty()
        } else {
            seq![name_at(s, i)]
        };
        names + missing_from(s, close_from(s, i + 2) + 2, fields)
    } else {
        missing_from(s, i + 1, fields)
    }
}

/// The key that a template renders from the given fields.
pub open spec fn rendered(s: Seq<char>, fields: Fields) -> Seq<char> {
    rendered_from(s, 0, fields)
}

/// The field names that a template asks for and the fields lack.
pub open spec fn missing(s: Seq<char>, fields: Fields) -> Seq<Seq<char>> {
    missing_from(s, 0, fields)
}

/// A template for destination keys.
#[derive(Debug)]
pub struct Template {
    chars: Vec<char>,
}

impl View for Template {
    type V = Seq<char>;

    closed spec fn view(&self) -> Seq<char> {
        self.chars@
    }
}

fn find_close(s: &Vec<char>, from: usize) -> (r: Option<usize>)
    requires
        from <= s@.len(),
    ensures
        match r {
            Some(j) => from <= j && j + 1 < s@.len() && close_from(s@, from as int) == j,
            None => close_from(s@, from as int) == -1,
        },
{
    let n = s.len();
    let mut j: usize = from;
    while j < n && j + 1 < n
        invariant
            n == s@.len(),
            from <= j <= n,
            close_from(s@, j as int) == close_from(s@, from as int),
        decreases n - j,
    {
        if s[j] == '}' && s[j + 1] == '}' {
            return Some(j);
        }
        j = j + 1;
    }
    None
}

fn substring(s: &Vec<char>, from: usize, to: usize) -> (r: String)
    requires
        from <= to <= s@.len(),
    ensures
        r@ == s@.subrange(from as int, to as int),
{
    let mut chars: Vec<char> = Vec::new();
    let mut i: usize = from;
    while i < to
        invariant
            from <= i <= to <= s@.len(),
            chars@ == s@.subrange(from as int, i as int),
        decreases to - i,
    {
        chars.push(s[i]);
        i = i + 1;
    }
    string_from_chars(&chars)
}

impl Template {
    /// The template with the given text.
    pub fn from(src: &str) -> (template: Template)
        ensures
            template@ == src@,
    {
        let mut chars: Vec<char> = Vec::new();
        push_chars(&mut chars, src);
        Template { chars }
    }

    /// Renders the key of `event`: the key where the event has every field
    /// that the template asks for, else the names that it lacks.
    pub fn render(&self, event: &Event) -> (r: Result<String, Vec<String>>)
        ensures
            match r {
                Ok(key) => missing(self@, event@.fields()).len() == 0 && key@ == rendered(
                    self@,
                    event@.fields(),
                ),
                Err(names) => names@.len() > 0 && names.deep_view() == missing(
                    self@,
                    event@.fields(),
                ),
            },
    {
        let s = &self.chars;
        let n = s.len();
        let ghost fields = event@.fields();
        let mut out: Vec<char> = Vec::new();
        let mut lacking: Vec<String> = Vec::new();
        let mut i: usize = 0;
        while i < n
            invariant
                n == s@.len(),
                i <= n,
                fields == event@.fields(),
                out@ + rendered_from(s@, i as int, fields) == rendered(s@, fields),
                lacking.deep_view() + missing_from(s@, i as int, fields) == missing(s@, fields),
            decreases n - i,
        {
            let close = if i + 1 < n && s[i] == '{' && s[i + 1] == '{' {
                find_close(s, i + 2)
            } else {
                None
            };
            match close {
                Some(j) => {
                    let name = substring(s, i + 2, j);
                    let value = match event.as_log() {
                        Some(log) => log.get(name.as_str()),
                        None => None,
                    };
                    match value {
                        Some(value) => {
                            let text = value.to_string_lossy();
                            push_chars(&mut out, text.as_str());
                        },
                        None => {
                            lacking.push(name);
                        },
                    }
                    i = j + 2;
                },
                None => {
                    out.push(s[i]);
                    i = i + 1;
                },
            }
        }
        if lacking.len() == 0 {
            Ok(string_from_chars(&out))
        } else {
            Err(lacking)
        }
    }
}

} // verus!
