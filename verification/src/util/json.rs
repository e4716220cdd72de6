//! The calls into the JSON library: reading a JSON text, walking the value
//! that it holds, and building and writing a JSON value.
//!
//! Nothing of the calls in this file is proved. Each function states what
//! the call it makes is taken to do.

use super::str_map::entries_view;
use serde_json::Value;
use vstd::prelude::*;

verus! {

/// `serde_json::Value`: a JSON value. What is known of it is what `json_of`
/// and `json_text` name.
#[verifier::external_type_specification]
#[verifier::external_body]
pub struct ExJsonValue(Value);

/// `serde_json::Error`: why a JSON text could not be read or written.
#[verifier::external_type_specification]
#[verifier::external_body]
pub struct ExJsonError(serde_json::Error);

/// What a JSON value holds.
pub ghost enum Json {
    /// Nothing: JSON's `null`.
    Null,
    /// A number: the whole number that it is, or `None` for a number that
    /// is held as a float.
    Number(Option<int>),
    /// A string.
    Text(Seq<char>),
    /// An array: its elements.
    Array(Seq<Json>),
    /// An object: its members by name.
    Object(Map<Seq<char>, Json>),
    /// Anything else.
    Other,
}

/// What a JSON value holds.
pub uninterp spec fn json_of(value: Value) -> Json;

/// The JSON text that a JSON value is written as, in UTF-8.
pub uninterp spec fn json_text(value: Value) -> Seq<u8>;

/// What the JSON value holds that a JSON text is read as; `None` where the
/// bytes are no JSON text.
pub uninterp spec fn parsed_json(bytes: Seq<u8>) -> Option<Json>;

/// The member of an object with a name; `null` where the value is no
/// object or has no such member.
pub open spec fn member_of(json: Json, name: Seq<char>) -> Json {
    match json {
        Json::Object(members) => if members.contains_key(name) {
            members[name]
        } else {
            Json::Null
        },
        _ => Json::Null,
    }
}

/// The element of an array at an index; `null` where the value is no array
/// or has no such element.
pub open spec fn element_of(json: Json, index: int) -> Json {
    match json {
        Json::Array(elements) => if 0 <= index < elements.len() {
            elements[index]
        } else {
            Json::Null
        },
        _ => Json::Null,
    }
}

/// The string that a value is, if it is one.
pub open spec fn text_of_json(json: Json) -> Option<Seq<char>> {
    match json {
        Json::Text(text) => Some(text),
        _ => None,
    }
}

/// The whole number of 64 bits with a sign that a value is, if it is one.
pub open spec fn i64_of_json(json: Json) -> Option<i64> {
    match json {
        Json::Number(Some(n)) => if i64::MIN <= n <= i64::MAX {
            Some(n as i64)
        } else {
            None
        },
        _ => None,
    }
}

/// Whether no two members of the list have the same name.
pub open spec fn names_distinct(members: Seq<(String, Value)>) -> bool {
    forall|i: int, j: int| 0 <= i < j < members.len() ==> members[i].0@ != members[j].0@
}

/// The members of the object that is made of a list of members with
/// distinct names.
pub open spec fn members_map(members: Seq<(String, Value)>) -> Map<Seq<char>, Json>
    decreases members.len(),
{
    if members.len() == 0 {
        Map::empty()
    } else {
        members_map(members.drop_last()).insert(members.last().0@, json_of(members.last().1))
    }
}

/// Whether a value is built of `null`, numbers, strings, arrays and objects
/// alone, nested at most `depth` deep.
pub open spec fn json_plain(json: Json, depth: nat) -> bool
    decreases depth,
{
    match json {
        Json::Null => true,
        Json::Number(_) => true,
        Json::Text(_) => true,
        Json::Array(elements) => depth > 0 && forall|i: int|
            0 <= i < elements.len() ==> json_plain(#[trigger] elements[i], (depth - 1) as nat),
        Json::Object(members) => depth > 0 && forall|name: Seq<char>|
            members.contains_key(name) ==> json_plain(#[trigger] members[name], (depth - 1) as nat),
        Json::Other => false,
    }
}

/// Whether `bytes` are the text of a JSON value that holds `contents`.
pub open spec fn is_json_text(bytes: Seq<u8>, contents: Json) -> bool {
    exists|value: Value| #[trigger] json_of(value) == contents && json_text(value) == bytes
}

/// `serde_json::from_slice` to a `serde_json::Value`: the value that the
/// JSON text holds. The outcome depends on the bytes alone.
#[verifier::external_body]
pub(crate) fn json_parse(bytes: &Vec<u8>) -> (r: Option<Value>)
    ensures
        match r {
            Some(value) => parsed_json(bytes@) == Some(json_of(value)),
            None => parsed_json(bytes@) is None,
        },
{
    serde_json::from_slice(bytes.as_slice()).ok()
}

/// `Index<&str>` of `serde_json::Value`: the member with the name; `null`
/// where the value is no object or has no such member.
#[verifier::external_body]
pub(crate) fn json_member(value: &Value, name: &str) -> (r: Value)
    ensures
        json_of(r) == member_of(json_of(*value), name@),
{
    value[name].clone()
}

/// `Index<usize>` of `serde_json::Value`: the element at the index; `null`
/// where the value is no array or has no such element.
#[verifier::external_body]
pub(crate) fn json_element(value: &Value, index: usize) -> (r: Value)
    ensures
        json_of(r) == element_of(json_of(*value), index as int),
{
    value[index].clone()
}

/// `serde_json::Value::as_str`: the string that the value is, if it is one.
#[verifier::external_body]
pub(crate) fn json_as_str(value: &Value) -> (r: Option<String>)
    ensures
        match r {
            Some(text) => text_of_json(json_of(*value)) == Some(text@),
            None => text_of_json(json_of(*value)) is None,
        },
{
    value.as_str().map(|s| s.to_string())
}

/// `serde_json::Value::as_i64`: the number that the value is, if it is a
/// whole number of 64 bits with a sign.
#[verifier::external_body]
pub(crate) fn json_as_i64(value: &Value) -> (r: Option<i64>)
    ensures
        r == i64_of_json(json_of(*value)),
{
    value.as_i64()
}

/// `serde_json::Value::is_number`: whether the value is a number.
#[verifier::external_body]
pub(crate) fn json_is_number(value: &Value) -> (r: bool)
    ensures
        r == (json_of(*value) is Number),
{
    value.is_number()
}

/// `serde_json::Value::from` of a `u64`: the JSON number.
#[verifier::external_body]
pub(crate) fn json_number(n: u64) -> (r: Value)
    ensures
        json_of(r) == Json::Number(Some(n as int)),
{
    Value::from(n)
}

/// `serde_json::Value::from` of a `&str`: the JSON string.
#[verifier::external_body]
pub(crate) fn json_string(s: &str) -> (r: Value)
    ensures
        json_of(r) == Json::Text(s@),
{
    Value::from(s)
}

/// `serde_json::Value::Object` of a `serde_json::Map` collected from the
/// members: for members with distinct names, the JSON object with these
/// members.
#[verifier::external_body]
pub(crate) fn json_object(members: Vec<(String, Value)>) -> (r: Value)
    ensures
        names_distinct(members@) ==> json_of(r) == Json::Object(members_map(members@)),
{
    Value::Object(members.into_iter().collect())
}

/// `serde_json::to_vec`: the JSON text of the value, in UTF-8. A value
/// built of `null`, numbers, strings, arrays and objects alone is written
/// without fail, as the text goes into a buffer that grows.
#[verifier::external_body]
pub(crate) fn json_to_vec(value: &Value) -> (r: Result<Vec<u8>, serde_json::Error>)
    ensures
        r matches Ok(bytes) ==> bytes@ == json_text(*value),
        (exists|depth: nat| json_plain(json_of(*value), depth)) ==> r is Ok,
{
    serde_json::to_vec(value)
}

/// The members made of the entries of a string map, one for one, have
/// distinct names and give the object of the map's values.
pub proof fn lemma_members_of_entries<V: View>(
    members: Seq<(String, Value)>,
    entries: Seq<(String, V)>,
    f: spec_fn(V::V) -> Json,
)
    requires
        members.len() == entries.len(),
        forall|i: int|
            0 <= i < members.len() ==> (#[trigger] members[i]).0@ == entries[i].0@ && json_of(
                members[i].1,
            ) == f(entries[i].1@),
    ensures
        members_map(members) == entries_view(entries).map_values(f),
    decreases members.len(),
{
    if members.len() == 0 {
        assert(members_map(members) =~= entries_view(entries).map_values(f));
    } else {
        let ms = members.drop_last();
        let es = entries.drop_last();
        assert forall|i: int| 0 <= i < ms.len() implies (#[trigger] ms[i]).0@ == es[i].0@
            && json_of(ms[i].1) == f(es[i].1@) by {
            assert(ms[i] == members[i]);
            assert(es[i] == entries[i]);
        }
        lemma_members_of_entries(ms, es, f);
        let last = members.len() - 1;
        assert(members[last].0@ == entries[last].0@);
        assert(members_map(members) =~= entries_view(entries).map_values(f));
    }
}

} // verus!
