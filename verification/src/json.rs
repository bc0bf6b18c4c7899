//! JSON documents, read and written through `serde_json`.
//!
//! A parsed document is a `serde_json::Value`. Verus sees nothing inside such a
//! value, so this module names what a value holds ([`content`]) and states, for
//! each method of `serde_json` that the library calls, what the method returns
//! in terms of that name. Nothing of this is proved: it is what the source of
//! `serde_json` shows. The functions below the trusted items are verified
//! against them.

use crate::error::{ClientError, ClientErrorView};
use vstd::prelude::*;

verus! {

/// A parsed JSON document of `serde_json`, opaque to the verifier.
#[verifier::external_type_specification]
#[verifier::external_body]
pub struct ExValue(serde_json::Value);

/// What a JSON value holds, as far as the library reads it.
pub enum Content {
    /// The value `null`.
    Null,
    /// `true` or `false`.
    Bool(bool),
    /// A number that is a non-negative integer below 2^64.
    Unsigned(u64),
    /// A string.
    Text(Seq<char>),
    /// An object: its members by name.
    Object(Map<Seq<char>, serde_json::Value>),
    /// An array, or a number that is negative or has a fraction or an exponent.
    Other,
}

/// What the JSON value `value` holds.
pub uninterp spec fn content(value: serde_json::Value) -> Content;

/// The document that `serde_json::from_slice` reads from `bytes`, or the text
/// of the error with which it refuses them.
pub uninterp spec fn json_document(bytes: Seq<u8>) -> Result<serde_json::Value, Seq<char>>;

/// The bytes that `serde_json::to_vec` writes for the string `text`, or the
/// text of the error with which it fails.
pub uninterp spec fn json_text_encoding(text: Seq<char>) -> Result<Seq<u8>, Seq<char>>;

/// `serde_json::from_slice`, read as a `serde_json::Value`: the result depends
/// on the bytes alone, and [`json_document`] is its name. An error is handed
/// out as the text that its `Display` writes.
#[verifier::external_body]
pub(crate) fn parse(bytes: &[u8]) -> (r: Result<serde_json::Value, String>)
    ensures
        match r {
            Ok(value) => json_document(bytes@) == Ok::<serde_json::Value, Seq<char>>(value),
            Err(text) => json_document(bytes@) == Err::<serde_json::Value, Seq<char>>(text@),
        },
{
    match serde_json::from_slice::<serde_json::Value>(bytes) {
        Ok(value) => Ok(value),
        Err(error) => Err(error.to_string()),
    }
}

/// `serde_json::to_vec` on a string: the JSON string literal for `text`, with
/// its quotes and escapes. The result depends on the text alone, and
/// [`json_text_encoding`] is its name.
#[verifier::external_body]
pub(crate) fn encode_text(text: &str) -> (r: Result<Vec<u8>, String>)
    ensures
        match r {
            Ok(bytes) => json_text_encoding(text@) == Ok::<Seq<u8>, Seq<char>>(bytes@),
            Err(message) => json_text_encoding(text@) == Err::<Seq<u8>, Seq<char>>(message@),
        },
{
    match serde_json::to_vec(text) {
        Ok(bytes) => Ok(bytes),
        Err(error) => Err(error.to_string()),
    }
}

/// `serde_json::Value::get` with a string index: the member of that name, where
/// the value is an object that has one.
#[verifier::external_body]
pub(crate) fn member<'a>(value: &'a serde_json::Value, name: &str) -> (r: Option<&'a serde_json::Value>)
    ensures
        match r {
            Some(found) => spec_member(*value, name@) == Some(*found),
            None => spec_member(*value, name@) is None,
        },
{
    value.get(name)
}

/// `serde_json::Value::as_str`: the string, where the value is one.
pub assume_specification<'a>[ serde_json::Value::as_str ](value: &'a serde_json::Value) -> (r: Option<&'a str>)
    ensures
        match r {
            Some(text) => content(*value) == Content::Text(text@),
            None => !(content(*value) is Text),
        },
;

/// `serde_json::Value::as_bool`: the boolean, where the value is one.
pub assume_specification[ serde_json::Value::as_bool ](value: &serde_json::Value) -> (r: Option<bool>)
    ensures
        match r {
            Some(flag) => content(*value) == Content::Bool(flag),
            None => !(content(*value) is Bool),
        },
;

/// `serde_json::Value::as_u64`: the number, where the value is a non-negative
/// integer that fits.
pub assume_specification[ serde_json::Value::as_u64 ](value: &serde_json::Value) -> (r: Option<u64>)
    ensures
        match r {
            Some(number) => content(*value) == Content::Unsigned(number),
            None => !(content(*value) is Unsigned),
        },
;

/// `serde_json::Value::is_null`: whether the value is `null`.
pub assume_specification[ serde_json::Value::is_null ](value: &serde_json::Value) -> (r: bool)
    ensures
        r == (content(*value) is Null),
;

/// The member `name` of `value`: there is one where `value` is an object that
/// has a member of that name.
pub open spec fn spec_member(value: serde_json::Value, name: Seq<char>) -> Option<serde_json::Value> {
    match content(value) {
        Content::Object(members) => if members.contains_key(name) {
            Some(members[name])
        } else {
            None
        },
        _ => None,
    }
}

/// The string that the member `name` of `value` is, where it is one.
pub open spec fn spec_text_member(value: serde_json::Value, name: Seq<char>) -> Option<Seq<char>> {
    match spec_member(value, name) {
        Some(found) => match content(found) {
            Content::Text(text) => Some(text),
            _ => None,
        },
        None => None,
    }
}

/// The boolean that the member `name` of `value` is, where it is one.
pub open spec fn spec_flag_member(value: serde_json::Value, name: Seq<char>) -> Option<bool> {
    match spec_member(value, name) {
        Some(found) => match content(found) {
            Content::Bool(flag) => Some(flag),
            _ => None,
        },
        None => None,
    }
}

/// The number that the member `name` of `value` is, where it is a non-negative
/// integer below 2^64.
pub open spec fn spec_unsigned_member(value: serde_json::Value, name: Seq<char>) -> Option<u64> {
    match spec_member(value, name) {
        Some(found) => match content(found) {
            Content::Unsigned(number) => Some(number),
            _ => None,
        },
        None => None,
    }
}

/// The member `name` of `value`, where `value` has one that is not `null`.
pub open spec fn spec_present_member(value: serde_json::Value, name: Seq<char>) -> Option<serde_json::Value> {
    match spec_member(value, name) {
        Some(found) => if content(found) is Null {
            None
        } else {
            Some(found)
        },
        None => None,
    }
}

/// Reads the member `name` of `value` as a string.
pub fn text_member(value: &serde_json::Value, name: &str) -> (r: Option<String>)
    ensures
        match r {
            Some(text) => spec_text_member(*value, name@) == Some(text@),
            None => spec_text_member(*value, name@) is None,
        },
{
    match member(value, name) {
        Some(found) => match found.as_str() {
            Some(text) => Some(text.to_owned()),
            None => None,
        },
        None => None,
    }
}

/// Reads the member `name` of `value` as a boolean.
pub fn flag_member(value: &serde_json::Value, name: &str) -> (r: Option<bool>)
    ensures
        r == spec_flag_member(*value, name@),
{
    match member(value, name) {
        Some(found) => found.as_bool(),
        None => None,
    }
}

/// Reads the member `name` of `value` as an unsigned number.
pub fn unsigned_member(value: &serde_json::Value, name: &str) -> (r: Option<u64>)
    ensures
        r == spec_unsigned_member(*value, name@),
{
    match member(value, name) {
        Some(found) => found.as_u64(),
        None => None,
    }
}

/// Looks up the member `name` of `value` and takes a `null` for a member that
/// is not there.
pub fn present_member<'a>(value: &'a serde_json::Value, name: &str) -> (r: Option<&'a serde_json::Value>)
    ensures
        match r {
            Some(found) => spec_present_member(*value, name@) == Some(*found),
            None => spec_present_member(*value, name@) is None,
        },
{
    match member(value, name) {
        Some(found) => if found.is_null() {
            None
        } else {
            Some(found)
        },
        None => None,
    }
}

/// The text of the failure for a document that lacks a member, or holds one of
/// another type than expected.
pub open spec fn mismatch_text() -> Seq<char> {
    "the JSON document lacks a member or holds one of another type"@
}

/// The failure for a document that lacks a member, or holds one of another
/// type than expected.
pub fn mismatch() -> (r: ClientError)
    ensures
        r@ == ClientErrorView::SerdeJsonError(mismatch_text()),
{
    ClientError::SerdeJsonError("the JSON document lacks a member or holds one of another type".to_owned())
}

} // verus!
