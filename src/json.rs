//! What this library takes from serde_json, each call behind one trusted wrapper.
use vstd::prelude::*;
use crate::text::opt_text;

verus! {

/// The JSON text of member `key` of the document `text`, where `text` parses as
/// JSON and that member exists and is not `null`.
pub uninterp spec fn json_member_text_of(text: Seq<char>, key: Seq<char>) -> Option<Seq<char>>;

/// The content of member `key` of the document `text`, where `text` parses as a
/// JSON object whose member `key` is a string.
pub uninterp spec fn json_member_str_of(text: Seq<char>, key: Seq<char>) -> Option<Seq<char>>;

/// `text` re-rendered by serde_json's pretty printer, where it parses as JSON.
pub uninterp spec fn json_pretty_of(text: Seq<char>) -> Option<Seq<char>>;

/// `s` written as a JSON string literal.
pub uninterp spec fn json_quoted_of(s: Seq<char>) -> Seq<char>;

/// Relies on serde_json::from_str into a `Value`, `Value::get` and the `Display`
/// of `Value`: the member rendered as compact JSON text. A missing member and
/// one that is `null` both give `None`, as does text that is not JSON.
#[verifier::external_body]
pub(crate) fn json_member_text(text: &str, key: &str) -> (r: Option<String>)
    ensures
        opt_text(r) == json_member_text_of(text@, key@),
{
    let doc: serde_json::Value = serde_json::from_str(text).ok()?;
    match doc.get(key) {
        None | Some(serde_json::Value::Null) => None,
        Some(member) => Some(member.to_string()),
    }
}

/// Relies on serde_json::from_str into a `Value`, `Value::get` and
/// `Value::as_str`: the member's characters when it is a JSON string.
#[verifier::external_body]
pub(crate) fn json_member_str(text: &str, key: &str) -> (r: Option<String>)
    ensures
        opt_text(r) == json_member_str_of(text@, key@),
{
    let doc: serde_json::Value = serde_json::from_str(text).ok()?;
    doc.get(key)?.as_str().map(|s| s.to_owned())
}

/// Relies on serde_json::from_str into a `Value` and serde_json::to_string_pretty:
/// `None` where `text` is not JSON (or rendering fails).
#[verifier::external_body]
pub(crate) fn json_pretty(text: &str) -> (r: Option<String>)
    ensures
        opt_text(r) == json_pretty_of(text@),
{
    let doc: serde_json::Value = serde_json::from_str(text).ok()?;
    serde_json::to_string_pretty(&doc).ok()
}

/// Relies on serde_json::to_string on a `str`: the string as a quoted JSON
/// literal. Serializing a `str` cannot fail; the error arm is never taken.
#[verifier::external_body]
pub(crate) fn json_quoted(s: &str) -> (r: String)
    ensures
        r@ == json_quoted_of(s@),
{
    match serde_json::to_string(s) {
        Ok(quoted) => quoted,
        Err(_) => String::new(),
    }
}

} // verus!
