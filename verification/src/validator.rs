//! The message validator: raw payload bytes in, canonical structured-data
//! text out.

use vstd::prelude::*;
use vstd::utf8::{decode_utf8, valid_utf8};

verus! {

/// Why a payload was turned away.
#[derive(Clone, Copy, Debug, PartialEq, Eq, Structural)]
pub enum ValidationError {
    /// The decoded text is not a well-formed document.
    Malformed,
}

/// `serde_json::Value`, a parsed document. It is carried from the parser to
/// the printer and nothing is read from it.
#[verifier::external_type_specification]
#[verifier::external_body]
pub struct ExDocument(serde_json::Value);

/// `serde_json::Error`, the parser's report. Only its presence counts.
#[verifier::external_type_specification]
#[verifier::external_body]
pub struct ExParseFailure(serde_json::Error);

/// The text that `String::from_utf8_lossy` makes of a byte sequence.
pub uninterp spec fn lossy_text(bytes: Seq<u8>) -> Seq<char>;

/// The compact text that the `Display` impl of `serde_json::Value` writes for
/// a document.
pub uninterp spec fn rendered(document: serde_json::Value) -> Seq<char>;

/// What `serde_json::from_str` makes of a text, read as a whole document: the
/// compact text of the document it returns, or `None` where it reports an
/// error.
pub uninterp spec fn canonical_text(text: Seq<char>) -> Option<Seq<char>>;

/// `String::from_utf8_lossy`, with the result owned. The contract names the
/// result and claims one thing of it: bytes that are valid UTF-8 decode to
/// the text they encode, with nothing replaced.
#[verifier::external_body]
fn decode_lossy(bytes: &[u8]) -> (text: String)
    ensures
        text@ == lossy_text(bytes@),
        valid_utf8(bytes@) ==> text@ == decode_utf8(bytes@),
{
    String::from_utf8_lossy(bytes).into_owned()
}

/// `serde_json::from_str` at `serde_json::Value`. The contract claims that
/// whether the call succeeds, and the compact text of the document it then
/// returns, depend on the text alone.
#[verifier::external_body]
fn parse_document(text: &str) -> (outcome: Result<serde_json::Value, serde_json::Error>)
    ensures
        match outcome {
            Ok(document) => canonical_text(text@) == Some(rendered(document)),
            Err(_) => canonical_text(text@) is None,
        },
{
    serde_json::from_str::<serde_json::Value>(text)
}

/// `to_string` through the `Display` impl of `serde_json::Value`. The
/// contract only names the text written.
#[verifier::external_body]
fn render(document: &serde_json::Value) -> (text: String)
    ensures
        text@ == rendered(*document),
{
    document.to_string()
}

/// Settles a parse: a document is accepted as its compact text, a parse
/// error is `Malformed`.
pub fn canonicalize(outcome: Result<serde_json::Value, serde_json::Error>) -> (accepted: Result<
    String,
    ValidationError,
>)
    ensures
        match outcome {
            Ok(document) => accepted matches Ok(text) && text@ == rendered(document),
            Err(_) => accepted == Err::<String, ValidationError>(ValidationError::Malformed),
        },
{
    match outcome {
        Ok(document) => Ok(render(&document)),
        Err(_) => Err(ValidationError::Malformed),
    }
}

/// What becomes of a text: its document's compact text, or `Malformed`
/// where it is no document.
pub open spec fn judged(text: Seq<char>) -> Result<Seq<char>, ValidationError> {
    match canonical_text(text) {
        Some(canonical) => Ok(canonical),
        None => Err(ValidationError::Malformed),
    }
}

/// What `validate` returns for a payload, over the named results.
pub open spec fn validate_spec(payload: Seq<u8>) -> Result<Seq<char>, ValidationError> {
    judged(lossy_text(payload))
}

/// What a validation came to, as plain values.
pub open spec fn accepted_view(accepted: Result<String, ValidationError>) -> Result<
    Seq<char>,
    ValidationError,
> {
    match accepted {
        Ok(text) => Ok(text@),
        Err(error) => Err(error),
    }
}

/// Decodes a payload lossily, parses the text as one document and returns
/// the document's compact text; fails with `Malformed` exactly where the
/// text does not parse. A payload that is valid UTF-8 is judged as the text
/// that it encodes.
pub fn validate(payload: &[u8]) -> (accepted: Result<String, ValidationError>)
    ensures
        accepted_view(accepted) == validate_spec(payload@),
        valid_utf8(payload@) ==> accepted_view(accepted) == judged(decode_utf8(payload@)),
{
    let text = decode_lossy(payload);
    canonicalize(parse_document(text.as_str()))
}

} // verus!
