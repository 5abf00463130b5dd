//! JSON documents for response bodies. The documents are built and
//! rendered by the `serde_json` crate; what is built, member by member, is
//! decided here.

use crate::text::decimal;
use vstd::prelude::*;
use vstd::string::*;

verus! {

/// `serde_json::Value`: a JSON document, carried as an opaque value.
#[verifier::external_type_specification]
#[verifier::external_body]
pub struct ExJsonValue(serde_json::Value);

/// The compact text of a JSON document.
pub uninterp spec fn text_of(value: serde_json::Value) -> Seq<char>;

/// The compact text of a JSON string: the characters between quotes, with
/// the escapes that JSON asks for.
pub uninterp spec fn string_text(content: Seq<char>) -> Seq<char>;

/// The compact text of a JSON array whose items have these texts, in this
/// order.
pub uninterp spec fn array_text(items: Seq<Seq<char>>) -> Seq<char>;

/// The compact text of a JSON object that was built from these members,
/// each a key and the text of its value, in this order.
pub uninterp spec fn object_text(members: Seq<(Seq<char>, Seq<char>)>) -> Seq<char>;

/// The texts of a list of documents.
pub open spec fn texts_of(values: Seq<serde_json::Value>) -> Seq<Seq<char>> {
    Seq::new(values.len(), |i: int| text_of(values[i]))
}

/// The keys of a list of members, each with the text of its value.
pub open spec fn member_texts(members: Seq<(String, serde_json::Value)>) -> Seq<
    (Seq<char>, Seq<char>),
> {
    Seq::new(members.len(), |i: int| (members[i].0@, text_of(members[i].1)))
}

/// `Value::Null` of the `serde_json` crate, which renders as `null`.
#[verifier::external_body]
pub(crate) fn json_null() -> (value: serde_json::Value)
    ensures
        text_of(value) == "null"@,
{
    serde_json::Value::Null
}

/// `Value::Bool` of the `serde_json` crate, which renders as `true` or
/// `false`.
#[verifier::external_body]
pub(crate) fn json_flag(flag: bool) -> (value: serde_json::Value)
    ensures
        text_of(value) == if flag {
            "true"@
        } else {
            "false"@
        },
{
    serde_json::Value::Bool(flag)
}

/// `Value::from` of the `serde_json` crate on an unsigned integer, which
/// renders as its decimal numeral.
#[verifier::external_body]
pub(crate) fn json_number(number: u64) -> (value: serde_json::Value)
    ensures
        text_of(value) == decimal(number as nat),
{
    serde_json::Value::from(number)
}

/// `Value::String` of the `serde_json` crate, which renders as a JSON
/// string of the content.
#[verifier::external_body]
pub(crate) fn json_string(content: &str) -> (value: serde_json::Value)
    ensures
        text_of(value) == string_text(content@),
{
    serde_json::Value::String(content.to_string())
}

/// `Value::Array` of the `serde_json` crate, which renders as a JSON array
/// of the items.
#[verifier::external_body]
pub(crate) fn json_array(items: Vec<serde_json::Value>) -> (value: serde_json::Value)
    ensures
        text_of(value) == array_text(texts_of(items@)),
{
    serde_json::Value::Array(items)
}

/// `Map::from_iter` and `Value::Object` of the `serde_json` crate: the
/// object built from the members in their order, which renders as a JSON
/// object.
#[verifier::external_body]
pub(crate) fn json_object(members: Vec<(String, serde_json::Value)>) -> (value: serde_json::Value)
    ensures
        text_of(value) == object_text(member_texts(members@)),
{
    serde_json::Value::Object(members.into_iter().collect())
}

/// `Value::to_string` of the `serde_json` crate: the compact text of the
/// document.
#[verifier::external_body]
pub(crate) fn json_render(value: &serde_json::Value) -> (text: String)
    ensures
        text@ == text_of(*value),
{
    value.to_string()
}

/// The text of an object with one member.
pub open spec fn object1(key: Seq<char>, value: Seq<char>) -> Seq<char> {
    object_text(seq![(key, value)])
}

/// The text of an object with two members.
pub open spec fn object2(k1: Seq<char>, v1: Seq<char>, k2: Seq<char>, v2: Seq<char>) -> Seq<char> {
    object_text(seq![(k1, v1), (k2, v2)])
}

/// The text of an object with three members.
pub open spec fn object3(
    k1: Seq<char>,
    v1: Seq<char>,
    k2: Seq<char>,
    v2: Seq<char>,
    k3: Seq<char>,
    v3: Seq<char>,
) -> Seq<char> {
    object_text(seq![(k1, v1), (k2, v2), (k3, v3)])
}

/// An object with one member.
pub fn build_object1(key: &str, value: serde_json::Value) -> (r: serde_json::Value)
    ensures
        text_of(r) == object1(key@, text_of(value)),
{
    let mut members: Vec<(String, serde_json::Value)> = Vec::new();
    members.push((String::from_str(key), value));
    assert(member_texts(members@) =~= seq![(key@, text_of(value))]);
    json_object(members)
}

/// An object with two members.
pub fn build_object2(
    k1: &str,
    v1: serde_json::Value,
    k2: &str,
    v2: serde_json::Value,
) -> (r: serde_json::Value)
    ensures
        text_of(r) == object2(k1@, text_of(v1), k2@, text_of(v2)),
{
    let mut members: Vec<(String, serde_json::Value)> = Vec::new();
    members.push((String::from_str(k1), v1));
    members.push((String::from_str(k2), v2));
    assert(member_texts(members@) =~= seq![(k1@, text_of(v1)), (k2@, text_of(v2))]);
    json_object(members)
}

/// An object with three members.
pub fn build_object3(
    k1: &str,
    v1: serde_json::Value,
    k2: &str,
    v2: serde_json::Value,
    k3: &str,
    v3: serde_json::Value,
) -> (r: serde_json::Value)
    ensures
        text_of(r) == object3(k1@, text_of(v1), k2@, text_of(v2), k3@, text_of(v3)),
{
    let mut members: Vec<(String, serde_json::Value)> = Vec::new();
    members.push((String::from_str(k1), v1));
    members.push((String::from_str(k2), v2));
    members.push((String::from_str(k3), v3));
    assert(member_texts(members@) =~= seq![
        (k1@, text_of(v1)),
        (k2@, text_of(v2)),
        (k3@, text_of(v3)),
    ]);
    json_object(members)
}

/// The array of the strings of a list.
pub fn build_strings(items: &Vec<String>) -> (r: serde_json::Value)
    ensures
        text_of(r) == array_text(Seq::new(items@.len(), |i: int| string_text(items@[i]@))),
{
    let mut values: Vec<serde_json::Value> = Vec::new();
    let mut i: usize = 0;
    while i < items.len()
        invariant
            i <= items@.len(),
            values@.len() == i,
            forall|k: int| 0 <= k < i ==> text_of(#[trigger] values@[k]) == string_text(items@[k]@),
        decreases items@.len() - i,
    {
        values.push(json_string(items[i].as_str()));
        i += 1;
    }
    assert(texts_of(values@) =~= Seq::new(items@.len(), |i: int| string_text(items@[i]@)));
    json_array(values)
}

} // verus!
