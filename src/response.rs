use vstd::prelude::*;
use vstd::string::StringExecFns;
use vstd::utf8::{decode_utf8, valid_utf8};

use crate::body::{
    json_accepts, json_diagnostic_of, json_value_of, parse_json, utf8_text, Blob, FormData,
};
use crate::error::FetchError;
use crate::headers::{first_non_text_header, header_is_text, header_text, normalize_headers};
use crate::status::{is_success, status_is_ok, status_text, status_text_of};

verus! {

/// What a response view holds, as mathematical values.
pub struct ResponseModel {
    pub status: u16,
    pub status_text: Seq<char>,
    pub headers: Seq<(Seq<char>, Seq<char>)>,
    pub url: Seq<char>,
    pub redirected: bool,
    pub user_agent: Seq<char>,
    pub request_had_body: bool,
    pub body: Seq<u8>,
    pub body_used: bool,
}

impl ResponseModel {
    /// The same view after one read of its body.
    pub open spec fn consumed(self) -> ResponseModel {
        ResponseModel { body_used: true, ..self }
    }
}

/// The ways a body can be read.
pub enum BodyReading {
    Text,
    Json,
    Bytes,
    ArrayBuffer,
    Blob,
    FormData,
}

/// Whether a body, not yet read, can be read in the given way: text and
/// JSON need UTF-8, JSON needs text that parses, the others take any bytes.
pub open spec fn body_readable_as(body: Seq<u8>, how: BodyReading) -> bool {
    match how {
        BodyReading::Text => valid_utf8(body),
        BodyReading::Json => valid_utf8(body) && json_accepts(decode_utf8(body)),
        _ => true,
    }
}

/// Whether reading the body of `m` in the given way succeeds.
pub open spec fn read_succeeds(m: ResponseModel, how: BodyReading) -> bool {
    !m.body_used && body_readable_as(m.body, how)
}

/// The text pairs that a list of string pairs holds.
pub open spec fn pairs_view(pairs: Seq<(String, String)>) -> Seq<(Seq<char>, Seq<char>)> {
    pairs.map_values(|p: (String, String)| (p.0@, p.1@))
}

/// A fetch-style response over one completed exchange: its metadata, and a
/// body that can be read once.
pub struct ResponseView {
    status: u16,
    status_text: String,
    headers: Vec<(String, String)>,
    url: String,
    redirected: bool,
    user_agent: String,
    request_had_body: bool,
    body: Vec<u8>,
    body_used: bool,
}

impl View for ResponseView {
    type V = ResponseModel;

    closed spec fn view(&self) -> ResponseModel {
        ResponseModel {
            status: self.status,
            status_text: self.status_text@,
            headers: pairs_view(self.headers@),
            url: self.url@,
            redirected: self.redirected,
            user_agent: self.user_agent@,
            request_had_body: self.request_had_body,
            body: self.body@,
            body_used: self.body_used,
        }
    }
}

/// Builds the view of one completed exchange. Headers are copied in order;
/// the first header whose value is not text fails the whole construction.
/// The body starts unread: `request_had_body` only records whether the
/// outbound request carried a body.
pub fn create_response_object(
    status: u16,
    headers: Vec<(String, Vec<u8>)>,
    body: Vec<u8>,
    original_url: &str,
    final_url: &str,
    user_agent: &str,
    request_had_body: bool,
) -> (r: Result<ResponseView, FetchError>)
    ensures
        r is Ok <==> forall|i: int|
            0 <= i < headers@.len() ==> header_is_text(#[trigger] headers@[i].1@),
        r matches Ok(v) ==> {
            &&& v@.status == status
            &&& v@.status_text == status_text_of(status)
            &&& v@.headers.len() == headers@.len()
            &&& forall|i: int|
                0 <= i < headers@.len() ==> (#[trigger] v@.headers[i]).0 == headers@[i].0@
                    && v@.headers[i].1 == header_text(headers@[i].1@)
            &&& v@.url == final_url@
            &&& v@.redirected == (original_url@ != final_url@)
            &&& v@.user_agent == user_agent@
            &&& v@.request_had_body == request_had_body
            &&& v@.body == body@
            &&& !v@.body_used
        },
        r matches Err(e) ==> first_non_text_header(headers@) matches Some(k) && e
            == FetchError::HeaderEncodingError(headers@[k].0),
{
    let normalized = match normalize_headers(&headers) {
        Ok(h) => h,
        Err(e) => {
            return Err(e);
        },
    };
    let original = original_url.to_string();
    let url = final_url.to_string();
    let redirected = !(original == url);
    let view = ResponseView {
        status,
        status_text: status_text(status),
        headers: normalized,
        url,
        redirected,
        user_agent: user_agent.to_string(),
        request_had_body,
        body,
        body_used: false,
    };
    Ok(view)
}

impl ResponseView {
    /// Marks the body as read and reports whether it had been read before.
    fn take_body(&mut self) -> (was_used: bool)
        ensures
            was_used == old(self)@.body_used,
            final(self)@ == old(self)@.consumed(),
    {
        let was_used = self.body_used;
        self.body_used = true;
        was_used
    }

    /// Reads the body as UTF-8 text.
    pub fn text(&mut self) -> (r: Result<String, FetchError>)
        ensures
            final(self)@ == old(self)@.consumed(),
            r is Ok <==> read_succeeds(old(self)@, BodyReading::Text),
            r == Err::<String, FetchError>(FetchError::BodyAlreadyConsumed) <==> old(self)@.body_used,
            r matches Ok(s) ==> s@ == decode_utf8(old(self)@.body),
            !old(self)@.body_used && !valid_utf8(old(self)@.body) ==> r == Err::<
                String,
                FetchError,
            >(FetchError::InvalidEncoding),
    {
        if self.take_body() {
            return Err(FetchError::BodyAlreadyConsumed);
        }
        match utf8_text(self.body.as_slice()) {
            Some(s) => Ok(s),
            None => Err(FetchError::InvalidEncoding),
        }
    }

    /// Reads the body as UTF-8 text and parses it as one JSON value.
    pub fn json(&mut self) -> (r: Result<serde_json::Value, FetchError>)
        ensures
            final(self)@ == old(self)@.consumed(),
            r is Ok <==> read_succeeds(old(self)@, BodyReading::Json),
            (r matches Err(FetchError::BodyAlreadyConsumed)) <==> old(self)@.body_used,
            !old(self)@.body_used && !valid_utf8(old(self)@.body) ==> r matches Err(
                FetchError::InvalidEncoding,
            ),
            r matches Ok(v) ==> v == json_value_of(decode_utf8(old(self)@.body)),
            !old(self)@.body_used && valid_utf8(old(self)@.body) && !json_accepts(
                decode_utf8(old(self)@.body),
            ) ==> (r matches Err(FetchError::MalformedJson(m)) && m@ == json_diagnostic_of(
                decode_utf8(old(self)@.body),
            )),
    {
        if self.take_body() {
            return Err(FetchError::BodyAlreadyConsumed);
        }
        let text = match utf8_text(self.body.as_slice()) {
            Some(s) => s,
            None => {
                return Err(FetchError::InvalidEncoding);
            },
        };
        match parse_json(text.as_str()) {
            Ok(v) => Ok(v),
            Err(m) => Err(FetchError::MalformedJson(m)),
        }
    }

    /// Copies the body bytes out of an unread view.
    fn read_bytes(&mut self) -> (r: Result<Vec<u8>, FetchError>)
        ensures
            final(self)@ == old(self)@.consumed(),
            old(self)@.body_used ==> r == Err::<Vec<u8>, FetchError>(
                FetchError::BodyAlreadyConsumed,
            ),
            !old(self)@.body_used ==> (r matches Ok(b) && b@ == old(self)@.body),
    {
        if self.take_body() {
            return Err(FetchError::BodyAlreadyConsumed);
        }
        let out = self.body.clone();
        proof {
            assert(out@ =~= self.body@);
        }
        Ok(out)
    }

    /// Reads the body as a byte array.
    pub fn bytes(&mut self) -> (r: Result<Vec<u8>, FetchError>)
        ensures
            final(self)@ == old(self)@.consumed(),
            r is Ok <==> read_succeeds(old(self)@, BodyReading::Bytes),
            r == Err::<Vec<u8>, FetchError>(FetchError::BodyAlreadyConsumed) <==> old(self)@.body_used,
            r matches Ok(b) ==> b@ == old(self)@.body,
    {
        self.read_bytes()
    }

    /// Reads the body as a fixed-length binary buffer: the same bytes as
    /// `bytes`.
    pub fn array_buffer(&mut self) -> (r: Result<Vec<u8>, FetchError>)
        ensures
            final(self)@ == old(self)@.consumed(),
            r is Ok <==> read_succeeds(old(self)@, BodyReading::ArrayBuffer),
            r == Err::<Vec<u8>, FetchError>(FetchError::BodyAlreadyConsumed) <==> old(self)@.body_used,
            r matches Ok(b) ==> b@ == old(self)@.body,
    {
        self.read_bytes()
    }

    /// Reads the body as a binary object without a MIME type.
    pub fn blob(&mut self) -> (r: Result<Blob, FetchError>)
        ensures
            final(self)@ == old(self)@.consumed(),
            r is Ok <==> read_succeeds(old(self)@, BodyReading::Blob),
            r == Err::<Blob, FetchError>(FetchError::BodyAlreadyConsumed) <==> old(self)@.body_used,
            r matches Ok(b) ==> b.bytes@ == old(self)@.body && b.mime_type is None,
    {
        match self.read_bytes() {
            Ok(bytes) => Ok(Blob { bytes, mime_type: None }),
            Err(e) => Err(e),
        }
    }

    /// Reads the body as form data holding one field, "body", whose value
    /// is the whole body.
    pub fn form_data(&mut self) -> (r: Result<FormData, FetchError>)
        ensures
            final(self)@ == old(self)@.consumed(),
            r is Ok <==> read_succeeds(old(self)@, BodyReading::FormData),
            r == Err::<FormData, FetchError>(FetchError::BodyAlreadyConsumed) <==> old(self)@.body_used,
            r matches Ok(f) ==> f.fields@.len() == 1 && f.fields@[0].0@ == "body"@
                && f.fields@[0].1@ == old(self)@.body,
    {
        match self.read_bytes() {
            Ok(bytes) => {
                let mut fields: Vec<(String, Vec<u8>)> = Vec::new();
                fields.push((String::from_str("body"), bytes));
                Ok(FormData { fields })
            },
            Err(e) => Err(e),
        }
    }

    /// The status code.
    pub fn status(&self) -> (r: u16)
        ensures
            r == self@.status,
    {
        self.status
    }

    /// Whether the status is a success code (200 to 299).
    pub fn ok(&self) -> (r: bool)
        ensures
            r == is_success(self@.status),
    {
        status_is_ok(self.status)
    }

    /// The reason phrase of the status.
    pub fn status_text(&self) -> (r: &str)
        ensures
            r@ == self@.status_text,
    {
        self.status_text.as_str()
    }

    /// The headers as received, names with their case kept.
    pub fn headers(&self) -> (r: &Vec<(String, String)>)
        ensures
            pairs_view(r@) == self@.headers,
    {
        &self.headers
    }

    /// The URL the exchange ended at.
    pub fn url(&self) -> (r: &str)
        ensures
            r@ == self@.url,
    {
        self.url.as_str()
    }

    /// Whether the exchange ended at another URL than the one requested.
    pub fn redirected(&self) -> (r: bool)
        ensures
            r == self@.redirected,
    {
        self.redirected
    }

    /// The user agent the request was made with.
    pub fn user_agent(&self) -> (r: &str)
        ensures
            r@ == self@.user_agent,
    {
        self.user_agent.as_str()
    }

    /// Whether the outbound request carried a body.
    pub fn request_had_body(&self) -> (r: bool)
        ensures
            r == self@.request_had_body,
    {
        self.request_had_body
    }

    /// The body bytes as received. Looking at them does not read the body:
    /// the view stays as it was.
    pub fn body(&self) -> (r: &[u8])
        ensures
            r@ == self@.body,
    {
        self.body.as_slice()
    }

    /// Whether the body has been read.
    pub fn body_used(&self) -> (r: bool)
        ensures
            r == self@.body_used,
    {
        self.body_used
    }
}

/// Copies a list of string pairs.
fn clone_pairs(pairs: &Vec<(String, String)>) -> (r: Vec<(String, String)>)
    ensures
        pairs_view(r@) == pairs_view(pairs@),
{
    let mut out: Vec<(String, String)> = Vec::new();
    let mut i: usize = 0;
    while i < pairs.len()
        invariant
            i <= pairs@.len(),
            out@.len() == i,
            forall|j: int|
                0 <= j < i ==> (#[trigger] out@[j]).0@ == pairs@[j].0@ && out@[j].1@
                    == pairs@[j].1@,
        decreases pairs@.len() - i,
    {
        let (a, b) = &pairs[i];
        out.push((a.clone(), b.clone()));
        i = i + 1;
    }
    proof {
        assert(pairs_view(out@) =~= pairs_view(pairs@));
    }
    out
}

impl Clone for ResponseView {
    /// A second view over the same metadata and bytes. Its read flag starts
    /// at this view's current value and is independent from then on.
    fn clone(&self) -> (r: Self)
        ensures
            r@ == self@,
    {
        let body = self.body.clone();
        proof {
            assert(body@ =~= self.body@);
        }
        ResponseView {
            status: self.status,
            status_text: self.status_text.clone(),
            headers: clone_pairs(&self.headers),
            url: self.url.clone(),
            redirected: self.redirected,
            user_agent: self.user_agent.clone(),
            request_had_body: self.request_had_body,
            body,
            body_used: self.body_used,
        }
    }
}

} // verus!
