//! Reading and writing the small JSON documents that the client stores.
//!
//! Parsing and printing are done by `serde_json`; this module gives each call
//! a contract and builds the lookups on top of them.

use vstd::prelude::*;
use crate::account::opt_text;

verus! {

#[verifier::external_type_specification]
#[verifier::external_body]
pub struct ExValue(serde_json::Value);

/// The JSON value that a text stands for, if it is a JSON document.
pub uninterp spec fn json_document(text: Seq<char>) -> Option<serde_json::Value>;

/// The member of a JSON object under a key; `None` where the value is no
/// object or has no such member.
pub uninterp spec fn json_member(value: serde_json::Value, key: Seq<char>) -> Option<
    serde_json::Value,
>;

/// The characters of a JSON string; `None` where the value is no string.
pub uninterp spec fn json_string(value: serde_json::Value) -> Option<Seq<char>>;

/// The pretty-printed JSON object whose members are the given strings.
pub uninterp spec fn json_object_text(members: Seq<(Seq<char>, Seq<char>)>) -> Seq<char>;

/// The members of a list of pairs, as characters.
pub open spec fn member_views(members: Seq<(String, String)>) -> Seq<(Seq<char>, Seq<char>)> {
    members.map_values(|member: (String, String)| (member.0@, member.1@))
}

/// `serde_json::from_str` at `Value`. The result is a function of the text
/// alone: the value that the text stands for, or nothing where the text is
/// not one JSON document.
#[verifier::external_body]
pub(crate) fn parse(text: &str) -> (document: Option<serde_json::Value>)
    ensures
        document == json_document(text@),
{
    serde_json::from_str::<serde_json::Value>(text).ok()
}

/// `serde_json::Value::get` with a string key. The result is a function of
/// the value and the key alone.
#[verifier::external_body]
pub(crate) fn member<'a>(value: &'a serde_json::Value, key: &str) -> (found: Option<
    &'a serde_json::Value,
>)
    ensures
        match found {
            Some(inner) => json_member(*value, key@) == Some(*inner),
            None => json_member(*value, key@).is_none(),
        },
{
    value.get(key)
}

/// `serde_json::Value::as_str`, copied into an owned string.
#[verifier::external_body]
pub(crate) fn string_of(value: &serde_json::Value) -> (text: Option<String>)
    ensures
        opt_text(text) == json_string(*value),
{
    value.as_str().map(|text| text.to_string())
}

/// `serde_json::to_string_pretty` on the object that `serde_json` collects
/// from the pairs, each value a JSON string. The text is a function of the
/// pairs alone.
#[verifier::external_body]
pub(crate) fn print_object(members: &Vec<(String, String)>) -> (text: String)
    ensures
        text@ == json_object_text(member_views(members@)),
{
    let object: serde_json::Map<String, serde_json::Value> = members
        .iter()
        .map(|member| (member.0.clone(), serde_json::Value::String(member.1.clone())))
        .collect();
    serde_json::to_string_pretty(&serde_json::Value::Object(object)).unwrap_or_default()
}

/// The string stored under `key` at the top level of a JSON text.
pub open spec fn string_field_of(text: Seq<char>, key: Seq<char>) -> Option<Seq<char>> {
    match json_document(text) {
        Some(document) => match json_member(document, key) {
            Some(value) => json_string(value),
            None => None,
        },
        None => None,
    }
}

/// Reads the string stored under `key` at the top level of a JSON text.
/// Returns `None` where the text is no JSON document, has no such member, or
/// the member is not a string.
pub fn string_field(text: &str, key: &str) -> (found: Option<String>)
    ensures
        opt_text(found) == string_field_of(text@, key@),
{
    match parse(text) {
        Some(document) => match member(&document, key) {
            Some(value) => string_of(value),
            None => None,
        },
        None => None,
    }
}

/// Writes a JSON object with one string member.
pub fn object_with_member(key: &str, value: &str) -> (text: String)
    ensures
        text@ == json_object_text(seq![(key@, value@)]),
{
    let mut members: Vec<(String, String)> = Vec::new();
    members.push((key.to_owned(), value.to_owned()));
    assert(member_views(members@) =~= seq![(key@, value@)]);
    print_object(&members)
}

} // verus!
