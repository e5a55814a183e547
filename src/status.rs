use vstd::prelude::*;
use vstd::string::StringExecFns;

verus! {

/// The reason phrase that the standard status table gives a code, if it has one.
pub uninterp spec fn reason_phrase_of(code: u16) -> Option<Seq<char>>;

/// Whether a status code lies in the success range.
pub open spec fn is_success(status: u16) -> bool {
    200 <= status < 300
}

/// The phrase a response shows for a status: the canonical one, or "Unknown".
pub open spec fn status_text_of(status: u16) -> Seq<char> {
    if 100 <= status <= 999 && reason_phrase_of(status) is Some {
        reason_phrase_of(status)->Some_0
    } else {
        "Unknown"@
    }
}

/// The text shown for a looked-up reason phrase: the phrase itself, or "Unknown".
pub open spec fn phrase_or_unknown(reason: Option<Seq<char>>) -> Seq<char> {
    match reason {
        Some(p) => p,
        None => "Unknown"@,
    }
}

/// Relies on http::StatusCode::from_u16 (which accepts 100..=999) and
/// StatusCode::canonical_reason: the phrase depends on the code alone.
#[verifier::external_body]
fn canonical_reason(status: u16) -> (r: Option<String>)
    requires
        100 <= status <= 999,
    ensures
        match r {
            Some(s) => reason_phrase_of(status) == Some(s@),
            None => reason_phrase_of(status) is None,
        },
{
    match http::StatusCode::from_u16(status) {
        Ok(code) => code.canonical_reason().map(|p| p.to_string()),
        Err(_) => None,
    }
}

/// Whether `status` is a success code (200 to 299).
pub fn status_is_ok(status: u16) -> (r: bool)
    ensures
        r == is_success(status),
{
    200 <= status && status < 300
}

/// The text shown for a looked-up reason phrase, falling back to "Unknown".
pub fn reason_or_unknown(reason: Option<String>) -> (r: String)
    ensures
        r@ == phrase_or_unknown(
            match reason {
                Some(s) => Some(s@),
                None => None,
            },
        ),
{
    match reason {
        Some(s) => s,
        None => String::from_str("Unknown"),
    }
}

/// The reason phrase of `status` from the standard table, or "Unknown".
pub fn status_text(status: u16) -> (r: String)
    ensures
        r@ == status_text_of(status),
{
    if 100 <= status && status <= 999 {
        let reason = canonical_reason(status);
        reason_or_unknown(reason)
    } else {
        String::from_str("Unknown")
    }
}

} // verus!
