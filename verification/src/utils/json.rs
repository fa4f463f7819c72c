//! JSON text in and out, through `serde_json`.
//!
//! A parsed document is an opaque `serde_json::Value`. The contracts speak
//! of it through its compact text, which stands for the value.

use crate::utils::file_handler::{FileError, FileErrorView};
use vstd::prelude::*;

verus! {

/// `serde_json::Value`, carried through as an opaque value.
#[verifier::external_type_specification]
#[verifier::external_body]
pub struct ExJsonValue(serde_json::Value);

/// `serde_json::Error`, carried through as an opaque value.
#[verifier::external_type_specification]
#[verifier::external_body]
pub struct ExJsonError(serde_json::Error);

/// The compact JSON text that stands for a value: what
/// `serde_json::to_string` writes for it.
pub uninterp spec fn json_text(value: serde_json::Value) -> Seq<char>;

/// What `serde_json::from_str` makes of `text`: the compact text of the
/// value that it parses to, or the message of the error where it does not
/// parse.
pub uninterp spec fn json_parsed(text: Seq<char>) -> Result<Seq<char>, Seq<char>>;

/// The pretty-printed text that `serde_json::to_string_pretty` writes for
/// the value whose compact text is `compact`.
pub uninterp spec fn json_pretty(compact: Seq<char>) -> Seq<char>;

/// The number of keys of the document whose compact text is `compact`,
/// where the document is an object: what `Value::as_object` and
/// `Map::len` give for it.
pub uninterp spec fn json_key_count(compact: Seq<char>) -> Option<nat>;

/// Calls `serde_json::from_str` for a `Value` and, on an error, takes the
/// error's text as its `Display` gives it. Trusted: whether the text
/// parses, to which value, and with which message it is refused depends
/// on the text alone.
#[verifier::external_body]
pub(crate) fn json_parse(text: &str) -> (r: Result<serde_json::Value, String>)
    ensures
        match r {
            Ok(value) => json_parsed(text@) == Ok::<Seq<char>, Seq<char>>(json_text(value)),
            Err(message) => json_parsed(text@) == Err::<Seq<char>, Seq<char>>(message@),
        },
{
    serde_json::from_str::<serde_json::Value>(text).map_err(|e| e.to_string())
}

/// Calls `serde_json::to_string`. Trusted: for a `Value` it succeeds, as
/// a `Value` has string keys only and writing to memory cannot fail, and
/// the result is the value's compact text.
#[verifier::external_body]
pub(crate) fn json_to_string(value: &serde_json::Value) -> (r: Result<String, serde_json::Error>)
    ensures
        r is Ok,
        r matches Ok(s) ==> s@ == json_text(*value),
{
    serde_json::to_string(value)
}

/// Calls `serde_json::to_string_pretty`. Trusted: for a `Value` it
/// succeeds, as `to_string` does, and the result depends on the value
/// alone.
#[verifier::external_body]
pub(crate) fn json_to_string_pretty(value: &serde_json::Value) -> (r: Result<
    String,
    serde_json::Error,
>)
    ensures
        r is Ok,
        r matches Ok(s) ==> s@ == json_pretty(json_text(*value)),
{
    serde_json::to_string_pretty(value)
}

/// Calls `Value::as_object` and, on an object, `Map::len`. Trusted: the
/// count, or its absence for a value that is no object, depends on the
/// value alone.
#[verifier::external_body]
pub(crate) fn json_object_len(value: &serde_json::Value) -> (r: Option<usize>)
    ensures
        match r {
            Some(n) => json_key_count(json_text(*value)) == Some(n as nat),
            None => json_key_count(json_text(*value)) is None,
        },
{
    value.as_object().map(|object| object.len())
}

/// The error for JSON that was refused with `message`: the parser's own
/// words, which the error carries unchanged.
pub fn invalid_json(message: String) -> (e: FileError)
    ensures
        e@ == FileErrorView::InvalidJson(message@),
{
    FileError::InvalidJson(message)
}

/// The written form of a parsed document, compact or pretty.
pub open spec fn rendering(compact: Seq<char>, pretty: bool) -> Seq<char> {
    if pretty {
        json_pretty(compact)
    } else {
        compact
    }
}

/// What parsing `text` and writing the document back gives, compact or
/// pretty; for text that is no JSON, `InvalidJson` with the parser's
/// message.
pub open spec fn reformatted(text: Seq<char>, pretty: bool) -> Result<Seq<char>, FileErrorView> {
    match json_parsed(text) {
        Ok(compact) => Ok(rendering(compact, pretty)),
        Err(message) => Err(FileErrorView::InvalidJson(message)),
    }
}

/// Writes `value` as text, compact or pretty.
pub fn render_value(value: &serde_json::Value, pretty: bool) -> (s: String)
    ensures
        s@ == rendering(json_text(*value), pretty),
{
    let written = if pretty {
        json_to_string_pretty(value)
    } else {
        json_to_string(value)
    };
    written.unwrap()
}

/// Parses `text` and writes the document back, compact or pretty.
///
/// The result is `Ok` exactly where the text is JSON, and is then the
/// document's text. Text that is no JSON gives `InvalidJson` with the
/// parser's message.
pub fn reformat(text: &str, pretty: bool) -> (r: Result<String, FileError>)
    ensures
        match r {
            Ok(s) => reformatted(text@, pretty) == Ok::<Seq<char>, FileErrorView>(s@),
            Err(e) => reformatted(text@, pretty) == Err::<Seq<char>, FileErrorView>(e@),
        },
{
    match json_parse(text) {
        Ok(value) => Ok(render_value(&value, pretty)),
        Err(message) => Err(invalid_json(message)),
    }
}

} // verus!
