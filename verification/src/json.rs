//! Access to decoded JSON documents.
//!
//! A document is a `serde_json::Value`. Verus sees nothing inside one, so
//! what the accessors of `serde_json` return is given a name each, and the
//! functions below state that they return exactly that. None of these
//! contracts is proved: each rests on the source of `serde_json`.

use crate::ieee::is_finite;
use serde_json::Value;
use vstd::prelude::*;

verus! {

/// A decoded JSON document of `serde_json`, carried through as an opaque value.
#[verifier::external_type_specification]
#[verifier::external_body]
pub struct ExValue(serde_json::Value);

/// The member that `Value::get` finds under a text key: the value stored
/// under that key if the document is an object that has it.
pub uninterp spec fn json_member(doc: Value, key: Seq<char>) -> Option<Value>;

/// The binary64 encoding of what `Value::as_f64` returns: the number, if the
/// document is one.
pub uninterp spec fn json_number_bits(doc: Value) -> Option<u64>;

/// What `Value::as_i64` returns: the number, if the document is an integer
/// that fits.
pub uninterp spec fn json_integer(doc: Value) -> Option<i64>;

/// What `Value::as_bool` returns: the truth value, if the document is one.
pub uninterp spec fn json_flag(doc: Value) -> Option<bool>;

/// What `Value::as_str` returns: the text, if the document is a string.
pub uninterp spec fn json_text(doc: Value) -> Option<Seq<char>>;

/// What `Value::as_array` returns: the elements in order, if the document
/// is an array.
pub uninterp spec fn json_elements(doc: Value) -> Option<Seq<Value>>;

/// The keys and values that `Value::as_object` holds, in the order in which
/// its map hands them out, if the document is an object.
pub uninterp spec fn json_entries(doc: Value) -> Option<Seq<(Seq<char>, Value)>>;

/// No key occurs twice.
pub open spec fn keys_distinct(entries: Seq<(Seq<char>, Value)>) -> bool {
    forall|i: int, j: int|
        0 <= i < j < entries.len() ==> (#[trigger] entries[i]).0 != (#[trigger] entries[j]).0
}

/// The borrowed entries are the named ones, one for one.
pub open spec fn entries_match(
    found: Seq<(&String, &Value)>,
    entries: Seq<(Seq<char>, Value)>,
) -> bool {
    &&& found.len() == entries.len()
    &&& forall|i: int|
        0 <= i < found.len() ==> (#[trigger] found[i]).0@ == entries[i].0 && *found[i].1
            == entries[i].1
}

/// Calls `Value::get` with a text key.
#[verifier::external_body]
pub(crate) fn member<'a>(doc: &'a Value, key: &str) -> (found: Option<&'a Value>)
    ensures
        json_member(*doc, key@) == match found {
            Some(value) => Some(*value),
            None => None,
        },
{
    doc.get(key)
}

/// Calls `Value::as_f64` and hands out the encoding of the number. A JSON
/// number is always finite.
#[verifier::external_body]
pub(crate) fn number_bits(doc: &Value) -> (bits: Option<u64>)
    ensures
        bits == json_number_bits(*doc),
        bits is Some ==> is_finite(bits.unwrap()),
{
    doc.as_f64().map(|number| number.to_bits())
}

/// Calls `Value::as_i64`.
#[verifier::external_body]
pub(crate) fn integer(doc: &Value) -> (number: Option<i64>)
    ensures
        number == json_integer(*doc),
{
    doc.as_i64()
}

/// Calls `Value::as_bool`.
#[verifier::external_body]
pub(crate) fn flag(doc: &Value) -> (truth: Option<bool>)
    ensures
        truth == json_flag(*doc),
{
    doc.as_bool()
}

/// Calls `Value::as_str`.
#[verifier::external_body]
pub(crate) fn text<'a>(doc: &'a Value) -> (found: Option<&'a str>)
    ensures
        json_text(*doc) == match found {
            Some(s) => Some(s@),
            None => None,
        },
{
    doc.as_str()
}

/// Calls `Value::as_array`.
#[verifier::external_body]
pub(crate) fn elements<'a>(doc: &'a Value) -> (found: Option<&'a Vec<Value>>)
    ensures
        json_elements(*doc) == match found {
            Some(list) => Some(list@),
            None => None,
        },
{
    doc.as_array()
}

/// Calls `Value::is_object`, which holds exactly of the documents that
/// `Value::as_object` accepts.
#[verifier::external_body]
pub(crate) fn is_object(doc: &Value) -> (holds: bool)
    ensures
        holds == (json_entries(*doc) is Some),
{
    doc.is_object()
}

/// Calls `Value::as_object` and collects what the map's `iter` hands out. A
/// map holds each key once.
#[verifier::external_body]
pub(crate) fn entries<'a>(doc: &'a Value) -> (found: Option<Vec<(&'a String, &'a Value)>>)
    ensures
        match json_entries(*doc) {
            Some(named) => found is Some && entries_match(found.unwrap()@, named)
                && keys_distinct(named),
            None => found is None,
        },
{
    doc.as_object().map(|map| map.iter().collect())
}

} // verus!
