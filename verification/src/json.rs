//! JSON as `serde_json` writes and reads it. The three functions at the top
//! hand texts to `serde_json` and take texts back; what they return is known
//! to the rest of the library by name only.

use vstd::prelude::*;

verus! {

/// The JSON string literal that `serde_json` writes for a text, quotes and
/// escapes included; `None` where it reports an error.
pub uninterp spec fn json_string_literal(text: Seq<char>) -> Option<Seq<char>>;

/// What `serde_json` finds under `key` in the document `doc`, written as JSON
/// again; `None` where `doc` is not JSON, or is no object with such a member.
pub uninterp spec fn json_member(doc: Seq<char>, key: Seq<char>) -> Option<Seq<char>>;

/// The text that the document `doc` stands for where `serde_json` reads it
/// as one JSON string, else `None`.
pub uninterp spec fn json_text(doc: Seq<char>) -> Option<Seq<char>>;

/// The text of an `Option<String>`, as a sequence of characters.
pub open spec fn text_of(o: Option<String>) -> Option<Seq<char>> {
    match o {
        Some(s) => Some(s@),
        None => None,
    }
}

/// Calls `serde_json::to_string` on a string slice and gives `None` for its
/// error. The contract claims only that the outcome depends on the text
/// alone: the same text always gives the same literal, or always no literal.
#[verifier::external_body]
pub(crate) fn quote(text: &str) -> (r: Option<String>)
    ensures
        text_of(r) == json_string_literal(text@),
{
    serde_json::to_string(text).ok()
}

/// Reads `doc` with `serde_json::from_str` as a `serde_json::Value`, looks
/// `key` up with `Value::get` and writes what is found with the value's
/// `to_string`; gives `None` for the parser's error and for a missing member.
/// The contract claims only that the outcome depends on the two texts alone.
#[verifier::external_body]
pub(crate) fn member(doc: &str, key: &str) -> (r: Option<String>)
    ensures
        text_of(r) == json_member(doc@, key@),
{
    let value: serde_json::Value = serde_json::from_str(doc).ok()?;
    value.get(key).map(|found| found.to_string())
}

/// Reads `doc` with `serde_json::from_str` as a `String` and gives `None` for
/// its error. The contract claims only that the outcome depends on the text
/// alone.
#[verifier::external_body]
pub(crate) fn text(doc: &str) -> (r: Option<String>)
    ensures
        text_of(r) == json_text(doc@),
{
    serde_json::from_str::<String>(doc).ok()
}

/// The text under `key` in a JSON document: `None` unless the document is an
/// object whose member `key` is a string.
pub open spec fn json_text_under(doc: Seq<char>, key: Seq<char>) -> Option<Seq<char>> {
    match json_member(doc, key) {
        Some(literal) => json_text(literal),
        None => None,
    }
}

/// The text under `outer.inner` in a JSON document: `None` unless the
/// document is an object whose member `outer` is an object whose member
/// `inner` is a string.
pub open spec fn json_text_at(doc: Seq<char>, outer: Seq<char>, inner: Seq<char>) -> Option<
    Seq<char>,
> {
    match json_member(doc, outer) {
        Some(object) => json_text_under(object, inner),
        None => None,
    }
}

/// The string under `key` in the JSON object `doc`.
pub fn text_under(doc: &str, key: &str) -> (r: Option<String>)
    ensures
        text_of(r) == json_text_under(doc@, key@),
{
    match member(doc, key) {
        Some(literal) => text(literal.as_str()),
        None => None,
    }
}

/// The string under `outer.inner` in the JSON object `doc`.
pub fn text_at(doc: &str, outer: &str, inner: &str) -> (r: Option<String>)
    ensures
        text_of(r) == json_text_at(doc@, outer@, inner@),
{
    match member(doc, outer) {
        Some(object) => text_under(object.as_str(), inner),
        None => None,
    }
}

/// The text under `key` in the body of a reply; `None` where the body could
/// not be read.
pub open spec fn json_text_in(body: Option<Seq<char>>, key: Seq<char>) -> Option<Seq<char>> {
    match body {
        Some(doc) => json_text_under(doc, key),
        None => None,
    }
}

/// The string under `key` in the body of a reply.
pub fn text_in(body: &Option<String>, key: &str) -> (r: Option<String>)
    ensures
        text_of(r) == json_text_in(text_of(*body), key@),
{
    match body {
        Some(doc) => text_under(doc.as_str(), key),
        None => None,
    }
}

} // verus!
