//! The JSON decoder that the price source rests on. Nothing in this file is
//! proved: each item states what `serde_json` does, and the rest of the
//! library is verified against these statements.
//!
//! A JSON value is modelled by its members: for each path of keys that leads
//! from the value through nested objects to a member, the member's JSON text
//! and, where the member is a string, the string it holds. The empty path
//! leads to the value itself.

use vstd::prelude::*;

verus! {

/// A JSON value of `serde_json`. Its inside is not visible to the verifier.
#[verifier::external_type_specification]
#[verifier::external_body]
pub struct ExValue(serde_json::Value);

/// The error of `serde_json`. Its inside is not visible to the verifier.
#[verifier::external_type_specification]
#[verifier::external_body]
pub struct ExError(serde_json::Error);

/// What a `serde_json::Value` holds: under each path of keys that leads to a
/// member, the member's JSON text and the string it holds, if it is one.
pub uninterp spec fn json_members(value: serde_json::Value) -> Map<
    Seq<Seq<char>>,
    (Seq<char>, Option<Seq<char>>),
>;

/// The members of the value that `serde_json::from_str` decodes a text to,
/// if it decodes it.
pub uninterp spec fn json_decoded(text: Seq<char>) -> Option<
    Map<Seq<Seq<char>>, (Seq<char>, Option<Seq<char>>)>,
>;

/// The members of the member under `key`: the paths that start with `key`,
/// each without it.
pub open spec fn members_under(
    members: Map<Seq<Seq<char>>, (Seq<char>, Option<Seq<char>>)>,
    key: Seq<char>,
) -> Map<Seq<Seq<char>>, (Seq<char>, Option<Seq<char>>)> {
    Map::new(
        |path: Seq<Seq<char>>| members.dom().contains(seq![key] + path),
        |path: Seq<Seq<char>>| members[seq![key] + path],
    )
}

/// Calls `serde_json::from_str` for a `serde_json::Value`. The decoder reads
/// nothing but the text, so the outcome is a function of the text: a value
/// where the whole text is one JSON document, an error where it is not.
#[verifier::external_body]
pub(crate) fn parse_document(body: &str) -> (parsed: Result<serde_json::Value, serde_json::Error>)
    ensures
        parsed matches Ok(value) ==> json_decoded(body@) == Some(json_members(value)),
        parsed is Err ==> json_decoded(body@).is_none(),
{
    serde_json::from_str(body)
}

/// Calls `serde_json::Value::get` with a string key. It finds the member
/// where the value is an object that has the key, and nothing otherwise. What
/// the member holds is what the value holds under the paths that start with
/// the key.
#[verifier::external_body]
pub(crate) fn member<'a>(value: &'a serde_json::Value, key: &str) -> (found: Option<
    &'a serde_json::Value,
>)
    ensures
        found.is_some() == json_members(*value).dom().contains(seq![key@]),
        found matches Some(inner) ==> json_members(*inner) == members_under(
            json_members(*value),
            key@,
        ),
{
    value.get(key)
}

/// Calls `serde_json::Value::as_str`. It hands out the string that a string
/// value holds, and nothing for any other value.
#[verifier::external_body]
pub(crate) fn string_of<'a>(value: &'a serde_json::Value) -> (content: Option<&'a str>)
    ensures
        content matches Some(text) ==> json_members(*value)[Seq::empty()].1 == Some(text@),
        content.is_none() ==> json_members(*value)[Seq::empty()].1.is_none(),
{
    value.as_str()
}

/// Calls `to_string` on a `serde_json::Value`, which writes the value as
/// compact JSON.
#[verifier::external_body]
pub(crate) fn text_of(value: &serde_json::Value) -> (text: String)
    ensures
        text@ == json_members(*value)[Seq::empty()].0,
{
    value.to_string()
}

} // verus!
