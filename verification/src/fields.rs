//! Typed members of JSON objects.

use crate::ieee::is_finite;
use crate::json::{
    flag, integer, json_flag, json_integer, json_member, json_number_bits, json_text, member,
    number_bits, text,
};
use serde_json::Value;
use vstd::prelude::*;

verus! {

/// The number under a key of a document, as a binary64 encoding, where the
/// document is an object with a number under that key.
pub open spec fn number_at(doc: Value, key: Seq<char>) -> Option<u64> {
    match json_member(doc, key) {
        Some(value) => json_number_bits(value),
        None => None,
    }
}

/// The integer under a key of a document, where there is one.
pub open spec fn integer_at(doc: Value, key: Seq<char>) -> Option<i64> {
    match json_member(doc, key) {
        Some(value) => json_integer(value),
        None => None,
    }
}

/// The truth value under a key of a document, where there is one.
pub open spec fn flag_at(doc: Value, key: Seq<char>) -> Option<bool> {
    match json_member(doc, key) {
        Some(value) => json_flag(value),
        None => None,
    }
}

/// The text under a key of a document, where there is one.
pub open spec fn text_at(doc: Value, key: Seq<char>) -> Option<Seq<char>> {
    match json_member(doc, key) {
        Some(value) => json_text(value),
        None => None,
    }
}

/// Reads the number under a key.
pub fn number_member(doc: &Value, key: &str) -> (bits: Option<u64>)
    ensures
        bits == number_at(*doc, key@),
        bits is Some ==> is_finite(bits.unwrap()),
{
    match member(doc, key) {
        Some(value) => number_bits(value),
        None => None,
    }
}

/// Reads the integer under a key.
pub fn integer_member(doc: &Value, key: &str) -> (number: Option<i64>)
    ensures
        number == integer_at(*doc, key@),
{
    match member(doc, key) {
        Some(value) => integer(value),
        None => None,
    }
}

/// Reads the truth value under a key.
pub fn flag_member(doc: &Value, key: &str) -> (truth: Option<bool>)
    ensures
        truth == flag_at(*doc, key@),
{
    match member(doc, key) {
        Some(value) => flag(value),
        None => None,
    }
}

/// Reads the text under a key.
pub fn text_member<'a>(doc: &'a Value, key: &str) -> (found: Option<&'a str>)
    ensures
        text_at(*doc, key@) == match found {
            Some(s) => Some(s@),
            None => None,
        },
{
    match member(doc, key) {
        Some(value) => text(value),
        None => None,
    }
}

} // verus!
