//! JSON documents, parsed and written by `serde_json`.
//!
//! A document is carried through as it is: nothing here looks inside one.
//! What `serde_json` computes is named, not defined, so a contract that
//! speaks of a document says which call gave it and no more.

use serde_json::Error as ParseError;
use vstd::prelude::*;

verus! {

/// `serde_json::Value`, a JSON document, as a type whose contents are not
/// looked into.
#[verifier::external_type_specification]
#[verifier::external_body]
pub struct ExValue(serde_json::Value);

/// `serde_json::Error`, the reason why a text is no JSON document, as a type
/// whose contents are not looked into.
#[verifier::external_type_specification]
#[verifier::external_body]
pub struct ExParseError(ParseError);

/// What a document holds: the compact text that `serde_json` writes for it.
pub uninterp spec fn json_text(value: serde_json::Value) -> Seq<char>;

/// What `serde_json::from_slice` reads from `body`: the document, given by
/// what it holds, if `body` is a JSON text.
pub uninterp spec fn json_reading(body: Seq<u8>) -> Option<Seq<char>>;

/// Calls `serde_json::from_slice` for a `serde_json::Value`. The call reads
/// nothing but `body`, so the same bytes give the same answer: a document
/// where `body` is a JSON text, an error where it is not.
#[verifier::external_body]
pub(crate) fn parse_json(body: &[u8]) -> (parsed: Result<serde_json::Value, ParseError>)
    ensures
        match parsed {
            Ok(value) => json_reading(body@) == Some(json_text(value)),
            Err(_) => json_reading(body@) is None,
        },
{
    serde_json::from_slice::<serde_json::Value>(body)
}

/// Calls `to_string` of `serde_json::Value`, which writes the document in
/// compact form.
#[verifier::external_body]
pub(crate) fn render_json(value: &serde_json::Value) -> (text: String)
    ensures
        text@ == json_text(*value),
{
    value.to_string()
}

/// Calls `to_string` of `serde_json::Error`: the parser's message with the
/// line and column at which it gave up. Nothing is claimed of the text.
#[verifier::external_body]
pub(crate) fn describe(error: &ParseError) -> String {
    error.to_string()
}

} // verus!
