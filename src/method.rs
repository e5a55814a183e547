use vstd::prelude::*;
use vstd::string::StringSliceAdditionalSpecFns;
use vstd::utf8::{decode_utf8, encode_utf8_decode_utf8};

use crate::error::FetchError;

verus! {

/// The HTTP verbs a request can be dispatched with.
#[derive(Debug, Clone, Copy, PartialEq, Eq, Structural)]
pub enum Method {
    Get,
    Post,
    Put,
    Delete,
    Patch,
    Head,
    Options,
    Trace,
}

/// The verb a method token names; tokens are matched exactly, upper case.
pub open spec fn method_of(token: Seq<char>) -> Option<Method> {
    if token == "GET"@ {
        Some(Method::Get)
    } else if token == "POST"@ {
        Some(Method::Post)
    } else if token == "PUT"@ {
        Some(Method::Put)
    } else if token == "DELETE"@ {
        Some(Method::Delete)
    } else if token == "PATCH"@ {
        Some(Method::Patch)
    } else if token == "HEAD"@ {
        Some(Method::Head)
    } else if token == "OPTIONS"@ {
        Some(Method::Options)
    } else if token == "TRACE"@ {
        Some(Method::Trace)
    } else {
        None
    }
}

/// Whether two strings hold the same characters.
fn same_text(a: &str, b: &str) -> (r: bool)
    ensures
        r == (a@ == b@),
{
    let x = a.as_bytes();
    let y = b.as_bytes();
    proof {
        encode_utf8_decode_utf8(a@);
        encode_utf8_decode_utf8(b@);
    }
    if x.len() != y.len() {
        return false;
    }
    let mut i: usize = 0;
    while i < x.len()
        invariant
            x@ == a.spec_bytes(),
            y@ == b.spec_bytes(),
            decode_utf8(x@) == a@,
            decode_utf8(y@) == b@,
            x@.len() == y@.len(),
            i <= x@.len(),
            forall|j: int| 0 <= j < i ==> x@[j] == y@[j],
        decreases x@.len() - i,
    {
        if x[i] != y[i] {
            proof {
                assert(x@[i as int] != y@[i as int]);
            }
            return false;
        }
        i = i + 1;
    }
    proof {
        assert(x@ =~= y@);
    }
    true
}

/// Maps a method token to its verb; any other token is `InvalidMethod`.
pub fn parse_method(token: &str) -> (r: Result<Method, FetchError>)
    ensures
        match method_of(token@) {
            Some(m) => r == Ok::<Method, FetchError>(m),
            None => r == Err::<Method, FetchError>(FetchError::InvalidMethod),
        },
{
    if same_text(token, "GET") {
        Ok(Method::Get)
    } else if same_text(token, "POST") {
        Ok(Method::Post)
    } else if same_text(token, "PUT") {
        Ok(Method::Put)
    } else if same_text(token, "DELETE") {
        Ok(Method::Delete)
    } else if same_text(token, "PATCH") {
        Ok(Method::Patch)
    } else if same_text(token, "HEAD") {
        Ok(Method::Head)
    } else if same_text(token, "OPTIONS") {
        Ok(Method::Options)
    } else if same_text(token, "TRACE") {
        Ok(Method::Trace)
    } else {
        Err(FetchError::InvalidMethod)
    }
}

} // verus!
