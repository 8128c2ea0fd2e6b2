//! JSON documents, read through `serde_json`. A parsed document is kept as
//! `serde_json` made it; this library looks into it by JSON Pointer.

use vstd::prelude::*;

verus! {

#[verifier::external_type_specification]
#[verifier::external_body]
pub struct ExJsonValue(serde_json::Value);

/// What this library reads of a JSON document, each part keyed by the JSON
/// Pointer that leads to it.
pub struct JsonModel {
    /// The document's strings.
    pub texts: Map<Seq<char>, Seq<char>>,
    /// The lengths of the document's arrays.
    pub lengths: Map<Seq<char>, nat>,
}

/// What `serde_json::from_str` makes of a text: the document that the text
/// writes, or `None` where the text is no JSON document.
pub uninterp spec fn json_parse(body: Seq<char>) -> Option<JsonModel>;

/// The strings that a document holds, by the JSON Pointer of each.
pub uninterp spec fn json_texts(document: serde_json::Value) -> Map<Seq<char>, Seq<char>>;

/// The lengths of the arrays that a document holds, by the JSON Pointer of
/// each.
pub uninterp spec fn json_lengths(document: serde_json::Value) -> Map<Seq<char>, nat>;

/// The model of a parsed document.
pub open spec fn json_model(document: serde_json::Value) -> JsonModel {
    JsonModel { texts: json_texts(document), lengths: json_lengths(document) }
}

/// Calls `serde_json::from_str` for a `serde_json::Value`. The contract names
/// the outcome: the document is the one that the text writes, and the call
/// fails, with the parser's message, exactly where the text writes none.
#[verifier::external_body]
pub(crate) fn parse_json(body: &str) -> (parsed: Result<serde_json::Value, String>)
    ensures
        parsed is Ok <==> json_parse(body@) is Some,
        parsed matches Ok(document) ==> json_parse(body@) == Some(json_model(document)),
{
    match serde_json::from_str::<serde_json::Value>(body) {
        Ok(document) => Ok(document),
        Err(cause) => Err(cause.to_string()),
    }
}

/// Calls `serde_json::Value::pointer` and then `as_str` on what was found:
/// the string at the pointer, `None` where the pointer leads nowhere or to
/// something that is no string.
#[verifier::external_body]
pub(crate) fn json_text_at(document: &serde_json::Value, pointer: &str) -> (found: Option<String>)
    ensures
        found is Some <==> json_texts(*document).contains_key(pointer@),
        found matches Some(text) ==> text@ == json_texts(*document)[pointer@],
{
    document.pointer(pointer).and_then(serde_json::Value::as_str).map(str::to_owned)
}

/// Calls `serde_json::Value::pointer` and then `as_array` on what was found:
/// the length of the array at the pointer, `None` where the pointer leads
/// nowhere or to something that is no array.
#[verifier::external_body]
pub(crate) fn json_length_at(document: &serde_json::Value, pointer: &str) -> (found: Option<usize>)
    ensures
        found is Some <==> json_lengths(*document).contains_key(pointer@),
        found matches Some(length) ==> length == json_lengths(*document)[pointer@],
{
    document.pointer(pointer).and_then(serde_json::Value::as_array).map(Vec::len)
}

} // verus!
