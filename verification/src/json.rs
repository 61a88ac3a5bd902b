//! JSON text, read and written by `serde_json`.
//!
//! The gateway's records are JSON objects whose members of interest are
//! strings. This module names what `serde_json` makes of a text and of an
//! object, and the gateway states its wire format over those names.

use vstd::prelude::*;

verus! {

#[verifier::external_type_specification]
#[verifier::external_body]
pub struct ExJsonValue(serde_json::Value);

/// The string members of a JSON value: for an object, every key whose value
/// is a JSON string, with that string; for any other value, none.
pub uninterp spec fn string_members(doc: serde_json::Value) -> Map<Seq<char>, Seq<char>>;

/// What `serde_json` reads from a text: `None` where the text is not one JSON
/// value, else the string members of that value.
pub uninterp spec fn parsed_members(text: Seq<char>) -> Option<Map<Seq<char>, Seq<char>>>;

/// The compact JSON text that `serde_json` writes for the object with exactly
/// the given members, all of them strings.
pub uninterp spec fn object_text(members: Map<Seq<char>, Seq<char>>) -> Seq<char>;

/// The map that a list of members without repeated keys spells.
pub open spec fn members_of(pairs: Seq<(String, String)>) -> Map<Seq<char>, Seq<char>>
    decreases pairs.len(),
{
    if pairs.len() == 0 {
        Map::empty()
    } else {
        members_of(pairs.drop_last()).insert(pairs.last().0@, pairs.last().1@)
    }
}

/// Whether no key occurs twice in a list of members.
pub open spec fn distinct_keys(pairs: Seq<(String, String)>) -> bool {
    forall|i: int, j: int|
        0 <= i < j < pairs.len() ==> (#[trigger] pairs[i]).0@ != (#[trigger] pairs[j]).0@
}

/// Parses a text with `serde_json::from_str` into a `serde_json::Value`.
///
/// Trusted: whether the text parses, and the string members of the value, are
/// a function of the text, named `parsed_members`.
#[verifier::external_body]
pub(crate) fn parse_document(text: &str) -> (doc: Option<serde_json::Value>)
    ensures
        match doc {
            Some(v) => parsed_members(text@) == Some(string_members(v)),
            None => parsed_members(text@) is None,
        },
{
    serde_json::from_str::<serde_json::Value>(text).ok()
}

/// Looks a key up with `serde_json::Value::get` and hands the member out if it
/// is a JSON string.
///
/// Trusted: `get` with a string index returns the member of an object under
/// that key, and `None` for a missing key or a value that is no object; the
/// member is handed on only if it is the `String` variant.
#[verifier::external_body]
pub(crate) fn string_member(doc: &serde_json::Value, key: &str) -> (member: Option<String>)
    ensures
        match member {
            Some(s) => string_members(*doc).contains_key(key@) && string_members(*doc)[key@]
                == s@,
            None => !string_members(*doc).contains_key(key@),
        },
{
    match doc.get(key) {
        Some(serde_json::Value::String(s)) => Some(s.clone()),
        _ => None,
    }
}

/// Writes an object of string members with `serde_json`: the members are
/// collected into a `serde_json::Map` and the object is written by `Value`'s
/// `to_string`.
///
/// Trusted: the text is a function of the members alone, named `object_text`.
/// `serde_json::Map` keeps its members ordered by key, so the order of the
/// list does not show in the text.
#[verifier::external_body]
pub(crate) fn render_object(pairs: &Vec<(String, String)>) -> (text: String)
    requires
        distinct_keys(pairs@),
    ensures
        text@ == object_text(members_of(pairs@)),
{
    let object: serde_json::Map<String, serde_json::Value> = pairs.iter().map(
        |p| (p.0.clone(), serde_json::Value::String(p.1.clone())),
    ).collect();
    serde_json::Value::Object(object).to_string()
}

} // verus!
