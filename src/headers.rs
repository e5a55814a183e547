use vstd::prelude::*;

use crate::error::FetchError;

verus! {

/// A byte that a header value may hold and still be shown as text:
/// horizontal tab or visible ASCII.
pub open spec fn is_visible_header_byte(b: u8) -> bool {
    b == 9 || (32 <= b && b < 127)
}

/// Whether every byte of a header value can be shown as text.
pub open spec fn header_is_text(value: Seq<u8>) -> bool {
    forall|i: int| 0 <= i < value.len() ==> is_visible_header_byte(#[trigger] value[i])
}

/// The text of a header value whose bytes are all ASCII: one character per byte.
pub open spec fn header_text(value: Seq<u8>) -> Seq<char> {
    Seq::new(value.len(), |i: int| value[i] as char)
}

/// Index of the first header whose value cannot be shown as text, if any.
pub open spec fn first_non_text_header(headers: Seq<(String, Vec<u8>)>) -> Option<int> {
    if exists|i: int| 0 <= i < headers.len() && !header_is_text(#[trigger] headers[i].1@) {
        Some(
            choose|i: int|
                0 <= i < headers.len() && !header_is_text(#[trigger] headers[i].1@) && forall|
                    j: int,
                | 0 <= j < i ==> header_is_text(#[trigger] headers[j].1@),
        )
    } else {
        None
    }
}

/// Relies on http::HeaderValue::from_bytes and HeaderValue::to_str: a value
/// is accepted as text exactly when each byte is a tab or visible ASCII, and
/// the text is then those bytes read as characters.
#[verifier::external_body]
fn header_value_str(value: &[u8]) -> (r: Option<String>)
    ensures
        r is Some <==> header_is_text(value@),
        r matches Some(s) ==> s@ == header_text(value@),
{
    match http::HeaderValue::from_bytes(value) {
        Ok(v) => v.to_str().ok().map(|s| s.to_string()),
        Err(_) => None,
    }
}

/// Copies each header name and value into a list of text pairs, in order.
/// Fails with `HeaderEncodingError` naming the first header whose value is
/// not text.
pub fn normalize_headers(headers: &Vec<(String, Vec<u8>)>) -> (r: Result<
    Vec<(String, String)>,
    FetchError,
>)
    ensures
        r is Ok <==> forall|i: int| 0 <= i < headers@.len() ==> header_is_text(#[trigger] headers@[i].1@),
        r matches Ok(out) ==> {
            &&& out@.len() == headers@.len()
            &&& forall|i: int|
                0 <= i < headers@.len() ==> (#[trigger] out@[i]).0@ == headers@[i].0@ && out@[i].1@
                    == header_text(headers@[i].1@)
        },
        r matches Err(e) ==> first_non_text_header(headers@) matches Some(k) && e
            == FetchError::HeaderEncodingError(headers@[k].0),
{
    let mut out: Vec<(String, String)> = Vec::new();
    let mut i: usize = 0;
    while i < headers.len()
        invariant
            i <= headers@.len(),
            out@.len() == i,
            forall|j: int| 0 <= j < i ==> header_is_text(#[trigger] headers@[j].1@),
            forall|j: int|
                0 <= j < i ==> (#[trigger] out@[j]).0@ == headers@[j].0@ && out@[j].1@
                    == header_text(headers@[j].1@),
        decreases headers@.len() - i,
    {
        let (name, value) = &headers[i];
        match header_value_str(value.as_slice()) {
            Some(text) => {
                out.push((name.clone(), text));
            },
            None => {
                proof {
                    let k = first_non_text_header(headers@)->Some_0;
                    if k < i {
                        assert(header_is_text(headers@[k].1@));
                    }
                }
                return Err(FetchError::HeaderEncodingError(name.clone()));
            },
        }
        i = i + 1;
    }
    Ok(out)
}

} // verus!
