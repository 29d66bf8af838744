//! JSON objects, built and serialised by `serde_json`.

use vstd::prelude::*;

verus! {

/// `serde_json::Number`: a JSON number, made of an integer here or carried
/// as it came.
#[verifier::external_type_specification]
#[verifier::external_body]
pub struct ExJsonNumber(serde_json::Number);

/// `serde_json::Value`: a JSON value, seen through [`json_value`].
#[verifier::external_type_specification]
#[verifier::external_body]
pub struct ExJsonValue(serde_json::Value);

/// `serde_json::Map`: a JSON object, seen through [`json_members`].
#[verifier::external_type_specification]
#[verifier::external_body]
#[verifier::reject_recursive_types(K)]
#[verifier::reject_recursive_types(V)]
pub struct ExJsonMap<K, V>(serde_json::Map<K, V>);

/// `serde_json::Error`: what the serialiser reports when it fails.
#[verifier::external_type_specification]
#[verifier::external_body]
pub struct ExJsonError(serde_json::Error);

/// What one member of a JSON object holds: a string or a number.
pub enum JsonValue {
    Text(Seq<char>),
    Number(serde_json::Number),
}

/// The members of a JSON object: names and what they hold, in order.
pub type JsonMembers = Seq<(Seq<char>, JsonValue)>;

/// The JSON number that `serde_json::Number::from` makes of an integer.
pub uninterp spec fn integer_number(n: int) -> serde_json::Number;

/// What a `serde_json::Value` built by this module holds.
pub uninterp spec fn json_value(v: serde_json::Value) -> JsonValue;

/// The members of a `serde_json::Map`, in the order in which it walks them.
pub uninterp spec fn json_members(m: serde_json::Map<String, serde_json::Value>) -> JsonMembers;

/// The compact JSON text of an object with the given members, as
/// `serde_json::to_vec` writes it, or `None` where it reports an error.
pub uninterp spec fn json_text(members: JsonMembers) -> Option<Seq<u8>>;

/// Whether some member has the given name.
pub open spec fn has_member(members: JsonMembers, name: Seq<char>) -> bool {
    exists|i: int| 0 <= i < members.len() && (#[trigger] members[i]).0 == name
}

/// `serde_json::Value::from` on a string slice makes a JSON string of the same text.
#[verifier::external_body]
pub(crate) fn value_from_text(text: &str) -> (v: serde_json::Value)
    ensures
        json_value(v) == JsonValue::Text(text@),
{
    serde_json::Value::from(text)
}

/// `serde_json::Number::from` on an `i64`: the number of that integer,
/// the same for the same integer.
#[verifier::external_body]
pub(crate) fn number_from_integer(n: i64) -> (number: serde_json::Number)
    ensures
        number == integer_number(n as int),
{
    serde_json::Number::from(n)
}

/// `serde_json::Value::from` on a `Number` makes the JSON number that holds
/// a copy of that number.
#[verifier::external_body]
pub(crate) fn value_from_number(n: &serde_json::Number) -> (v: serde_json::Value)
    ensures
        json_value(v) == JsonValue::Number(*n),
{
    serde_json::Value::from(n.clone())
}

/// `serde_json::Map::new` makes an object without members.
#[verifier::external_body]
pub(crate) fn map_new() -> (m: serde_json::Map<String, serde_json::Value>)
    ensures
        json_members(m) == JsonMembers::empty(),
{
    serde_json::Map::new()
}

/// `serde_json::Map::insert`, with the map keeping insertion order: a new
/// name is appended as the last member; a name that is already present keeps
/// its place and takes the new value.
#[verifier::external_body]
pub(crate) fn map_insert(m: &mut serde_json::Map<String, serde_json::Value>, name: &str, v: serde_json::Value)
    ensures
        !has_member(json_members(*old(m)), name@) ==> json_members(*final(m)) == json_members(
            *old(m),
        ).push((name@, json_value(v))),
        forall|i: int|
            0 <= i < json_members(*old(m)).len() && (#[trigger] json_members(*old(m))[i]).0
                == name@ ==> json_members(*final(m)) == json_members(*old(m)).update(
                i,
                (name@, json_value(v)),
            ),
{
    m.insert(name.to_owned(), v);
}

/// `serde_json::to_vec` on an object: its compact JSON text, or the error
/// that the serialiser reports.
#[verifier::external_body]
pub(crate) fn map_to_vec(m: &serde_json::Map<String, serde_json::Value>) -> (r: Result<
    Vec<u8>,
    serde_json::Error,
>)
    ensures
        match r {
            Ok(bytes) => json_text(json_members(*m)) == Some(bytes@),
            Err(_) => json_text(json_members(*m)) is None,
        },
{
    serde_json::to_vec(m)
}

/// `serde_json::to_string` on an object: the text of `serde_json::to_vec`,
/// which is UTF-8, as a string.
#[verifier::external_body]
pub(crate) fn map_to_string(m: &serde_json::Map<String, serde_json::Value>) -> (r: Result<
    String,
    serde_json::Error,
>)
    ensures
        match r {
            Ok(text) => json_text(json_members(*m)) == Some(vstd::utf8::encode_utf8(text@)),
            Err(_) => json_text(json_members(*m)) is None,
        },
{
    serde_json::to_string(m)
}

} // verus!
