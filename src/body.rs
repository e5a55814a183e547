use vstd::prelude::*;
use vstd::utf8::{decode_utf8, valid_utf8};

verus! {

#[verifier::external_type_specification]
#[verifier::external_body]
pub struct ExJsonValue(serde_json::Value);

/// Whether serde_json accepts the text as one JSON value.
pub uninterp spec fn json_accepts(text: Seq<char>) -> bool;

/// The JSON value serde_json parses from the text, where it accepts it.
pub uninterp spec fn json_value_of(text: Seq<char>) -> serde_json::Value;

/// The diagnostic serde_json gives for text it does not accept.
pub uninterp spec fn json_diagnostic_of(text: Seq<char>) -> Seq<char>;

/// A body handed out as an opaque binary object. No MIME type is taken
/// from the headers, so `mime_type` is always `None`.
#[derive(Debug, Clone, PartialEq, Eq)]
pub struct Blob {
    pub bytes: Vec<u8>,
    pub mime_type: Option<String>,
}

/// A body handed out as form fields: the whole body is one field named
/// "body". No urlencoded or multipart parsing takes place.
#[derive(Debug, Clone, PartialEq, Eq)]
pub struct FormData {
    pub fields: Vec<(String, Vec<u8>)>,
}

/// Relies on std::str::from_utf8: it succeeds exactly on valid UTF-8, and
/// the string then holds the characters those bytes encode.
#[verifier::external_body]
pub(crate) fn utf8_text(bytes: &[u8]) -> (r: Option<String>)
    ensures
        r is Some <==> valid_utf8(bytes@),
        r matches Some(s) ==> s@ == decode_utf8(bytes@),
{
    match std::str::from_utf8(bytes) {
        Ok(s) => Some(s.to_string()),
        Err(_) => None,
    }
}

/// Relies on serde_json::from_str into serde_json::Value, and on
/// serde_json::Error's Display for the diagnostic of a failure: the value,
/// and the diagnostic, depend on the text alone.
#[verifier::external_body]
pub(crate) fn parse_json(text: &str) -> (r: Result<serde_json::Value, String>)
    ensures
        r is Ok <==> json_accepts(text@),
        r matches Ok(v) ==> v == json_value_of(text@),
        r matches Err(m) ==> m@ == json_diagnostic_of(text@),
{
    serde_json::from_str::<serde_json::Value>(text).map_err(|e| e.to_string())
}

} // verus!
