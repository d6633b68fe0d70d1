//! The JSON values of `serde_json` as this crate sees them.
//!
//! A `serde_json::Value` is opaque to the verifier. It is described by the
//! compact text that `serde_json` writes for it, and an object under
//! construction by the text of the value stored under each key. Everything
//! in this file is trusted: each contract restates what the source of
//! `serde_json` shows and is not proved.

use vstd::prelude::*;

use crate::text::int_text;

verus! {

/// Declares `serde_json::Value`, a JSON value, as an opaque type.
#[verifier::external_type_specification]
#[verifier::external_body]
pub struct ExJsonValue(serde_json::Value);

/// Declares `serde_json::Map`, the entries of a JSON object, as an opaque
/// type.
#[verifier::external_type_specification]
#[verifier::external_body]
#[verifier::reject_recursive_types(K)]
#[verifier::reject_recursive_types(V)]
pub struct ExJsonMap<K, V>(serde_json::Map<K, V>);

/// Declares `serde_json::Error`, the failure of an encoding, as an opaque
/// type.
#[verifier::external_type_specification]
#[verifier::external_body]
pub struct ExJsonError(serde_json::Error);

/// The compact JSON text of a value: what `serde_json::to_string` writes
/// for it.
pub uninterp spec fn json_text(v: serde_json::Value) -> Seq<char>;

/// The compact JSON text of a string value: the quoted and escaped form that
/// `serde_json` writes for the given characters.
pub uninterp spec fn string_text(s: Seq<char>) -> Seq<char>;

/// What an object under construction holds: for each key, the compact text
/// of the value stored under it.
pub uninterp spec fn object_entries(m: serde_json::Map<String, serde_json::Value>) -> Map<
    Seq<char>,
    Seq<char>,
>;

/// The compact JSON text of an object with the given entries. `serde_json`
/// keeps the entries of an object ordered by key unless it is built with
/// `preserve_order`, which this crate does not ask for; so the text depends
/// on the entries alone.
pub uninterp spec fn object_text(entries: Map<Seq<char>, Seq<char>>) -> Seq<char>;

/// The entries of an empty object.
pub open spec fn no_entries() -> Map<Seq<char>, Seq<char>> {
    Map::empty()
}

/// The text `null`.
pub open spec fn null_text() -> Seq<char> {
    seq!['n', 'u', 'l', 'l']
}

/// The text `true` or `false`.
pub open spec fn bool_text(b: bool) -> Seq<char> {
    if b {
        seq!['t', 'r', 'u', 'e']
    } else {
        seq!['f', 'a', 'l', 's', 'e']
    }
}

/// The given texts, separated by commas.
pub open spec fn comma_joined(items: Seq<Seq<char>>) -> Seq<char>
    decreases items.len(),
{
    if items.len() == 0 {
        Seq::empty()
    } else if items.len() == 1 {
        items[0]
    } else {
        comma_joined(items.drop_last()) + seq![','] + items.last()
    }
}

/// The compact JSON text of an array whose elements have the given texts.
pub open spec fn array_text(items: Seq<Seq<char>>) -> Seq<char> {
    seq!['['] + comma_joined(items) + seq![']']
}

/// The texts of a list of values, in order.
pub open spec fn texts_of(values: Seq<serde_json::Value>) -> Seq<Seq<char>> {
    values.map_values(|v: serde_json::Value| json_text(v))
}

/// Trusted: `serde_json::Value::Null`, which is written as `null`.
#[verifier::external_body]
pub(crate) fn json_null() -> (v: serde_json::Value)
    ensures
        json_text(v) == null_text(),
{
    serde_json::Value::Null
}

/// Trusted: `serde_json::Value::from(bool)`, which is written as `true` or
/// `false`.
#[verifier::external_body]
pub(crate) fn json_bool(b: bool) -> (v: serde_json::Value)
    ensures
        json_text(v) == bool_text(b),
{
    serde_json::Value::from(b)
}

/// Trusted: `serde_json::Value::from(i64)`, a number that is written in
/// decimal, with a minus sign if it is negative.
#[verifier::external_body]
pub(crate) fn json_integer(n: i64) -> (v: serde_json::Value)
    ensures
        json_text(v) == int_text(n as int),
{
    serde_json::Value::from(n)
}

/// Trusted: `serde_json::Value::from(&str)`, a string value. Its text is the
/// escaped form of the characters between two double quotes.
#[verifier::external_body]
pub(crate) fn json_string(s: &str) -> (v: serde_json::Value)
    ensures
        json_text(v) == string_text(s@),
        json_text(v).len() >= 2,
        json_text(v).first() == '"',
{
    serde_json::Value::from(s)
}

/// Trusted: `Clone::clone` of `serde_json::Value`; the copy has the text of
/// the value that it was made from.
#[verifier::external_body]
pub(crate) fn json_clone(v: &serde_json::Value) -> (copy: serde_json::Value)
    ensures
        json_text(copy) == json_text(*v),
{
    v.clone()
}

/// Trusted: `serde_json::Map::new`, an object without entries.
#[verifier::external_body]
pub(crate) fn object_new() -> (m: serde_json::Map<String, serde_json::Value>)
    ensures
        object_entries(m) == no_entries(),
{
    serde_json::Map::new()
}

/// Trusted: `serde_json::Map::insert`. The value is stored under the key and
/// replaces one stored there before; the other entries stay.
#[verifier::external_body]
pub(crate) fn object_insert(
    m: &mut serde_json::Map<String, serde_json::Value>,
    key: String,
    value: serde_json::Value,
)
    ensures
        object_entries(*final(m)) == object_entries(*old(m)).insert(key@, json_text(value)),
{
    m.insert(key, value);
}

/// Trusted: `serde_json::Value::Object`, the object value with the entries of
/// the map.
#[verifier::external_body]
pub(crate) fn json_object(m: serde_json::Map<String, serde_json::Value>) -> (v: serde_json::Value)
    ensures
        json_text(v) == object_text(object_entries(m)),
{
    serde_json::Value::Object(m)
}

/// Trusted: `serde_json::to_string` on a list of values. The serializer
/// fails only where its writer does or where a key of an object is not a
/// string; here it writes into a byte vector, and the keys of a
/// `serde_json::Map` are strings, so the call succeeds. The text is an
/// opening bracket, the texts of the values separated by commas, and a
/// closing bracket.
#[verifier::external_body]
pub(crate) fn encode_array(values: &Vec<serde_json::Value>) -> (r: Result<
    String,
    serde_json::Error,
>)
    ensures
        r is Ok,
        r matches Ok(s) ==> s@ == array_text(texts_of(values@)),
{
    serde_json::to_string(values)
}

/// Trusted: the `Display` text of a `serde_json::Error`.
#[verifier::external_body]
pub(crate) fn json_error_text(e: &serde_json::Error) -> (s: String) {
    format!("{}", e)
}

} // verus!
