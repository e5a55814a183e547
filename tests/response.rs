use fetch_response::body::{Blob, FormData};
use fetch_response::error::FetchError;
use fetch_response::method::{parse_method, Method};
use fetch_response::response::{create_response_object, ResponseView};
use fetch_response::status::{reason_or_unknown, status_is_ok, status_text};

fn header(name: &str, value: &[u8]) -> (String, Vec<u8>) {
    (name.to_string(), value.to_vec())
}

fn view(status: u16, body: &[u8], original: &str, final_url: &str) -> ResponseView {
    create_response_object(
        status,
        vec![header("Content-Type", b"text/plain")],
        body.to_vec(),
        original,
        final_url,
        "agent/1.0",
        false,
    )
    .unwrap()
}

#[test]
fn ok_follows_success_range() {
    for status in 100u16..600 {
        let v = view(status, b"", "http://a/x", "http://a/x");
        assert_eq!(v.ok(), (200..300).contains(&status));
        assert_eq!(status_is_ok(status), (200..300).contains(&status));
    }
    assert!(view(200, b"", "u", "u").ok());
    assert!(view(299, b"", "u", "u").ok());
    assert!(!view(199, b"", "u", "u").ok());
    assert!(!view(300, b"", "u", "u").ok());
}

#[test]
fn redirect_detected_from_differing_urls() {
    let v = view(200, b"", "http://a/x", "http://a/y");
    assert!(v.redirected());
    assert_eq!(v.url(), "http://a/y");
    let same = view(200, b"", "http://a/x", "http://a/x");
    assert!(!same.redirected());
    assert_eq!(same.url(), "http://a/x");
    let slash = view(200, b"", "http://a/x", "http://a/x/");
    assert!(slash.redirected());
    let case = view(200, b"", "http://a/x", "http://A/x");
    assert!(case.redirected());
}

#[test]
fn each_reading_works_once_then_refuses() {
    let readers: Vec<fn(&mut ResponseView) -> Result<(), FetchError>> = vec![
        |v| v.text().map(|_| ()),
        |v| v.json().map(|_| ()),
        |v| v.bytes().map(|_| ()),
        |v| v.array_buffer().map(|_| ()),
        |v| v.blob().map(|_| ()),
        |v| v.form_data().map(|_| ()),
    ];
    for first in &readers {
        for second in &readers {
            let mut v = view(200, b"{\"a\": 1}", "u", "u");
            assert!(!v.body_used());
            assert_eq!(first(&mut v), Ok(()));
            assert!(v.body_used());
            assert_eq!(second(&mut v), Err(FetchError::BodyAlreadyConsumed));
            assert!(v.body_used());
        }
    }
}

#[test]
fn clone_before_read_gives_two_readable_views() {
    let mut v = view(200, b"hello", "u", "u");
    let mut c = v.clone();
    assert_eq!(c.text(), Ok("hello".to_string()));
    assert!(!v.body_used());
    assert_eq!(v.text(), Ok("hello".to_string()));
    assert_eq!(c.text(), Err(FetchError::BodyAlreadyConsumed));
}

#[test]
fn clone_after_read_is_already_consumed() {
    let mut v = view(200, b"hello", "u", "u");
    assert_eq!(v.text(), Ok("hello".to_string()));
    let mut c = v.clone();
    assert!(c.body_used());
    assert_eq!(c.text(), Err(FetchError::BodyAlreadyConsumed));
}

#[test]
fn clone_keeps_metadata() {
    let v = view(201, b"x", "http://a/x", "http://a/y");
    let c = v.clone();
    assert_eq!(c.status(), 201);
    assert_eq!(c.status_text(), "Created");
    assert_eq!(c.headers(), v.headers());
    assert_eq!(c.url(), "http://a/y");
    assert!(c.redirected());
    assert_eq!(c.user_agent(), "agent/1.0");
}

fn structured_value() -> serde_json::Value {
    let mut inner = serde_json::Map::new();
    inner.insert("flag".to_string(), serde_json::Value::Bool(true));
    inner.insert("nothing".to_string(), serde_json::Value::Null);
    let mut outer = serde_json::Map::new();
    outer.insert("name".to_string(), serde_json::Value::String("caf\u{e9}".to_string()));
    outer.insert("count".to_string(), serde_json::Value::from(42));
    outer.insert(
        "list".to_string(),
        serde_json::Value::Array(vec![serde_json::Value::from(-1), serde_json::Value::from("two")]),
    );
    outer.insert("inner".to_string(), serde_json::Value::Object(inner));
    serde_json::Value::Object(outer)
}

#[test]
fn json_round_trip() {
    let value = structured_value();
    let text = serde_json::to_string(&value).unwrap();
    let mut v = view(200, text.as_bytes(), "u", "u");
    assert_eq!(v.json().unwrap(), value);
    assert!(v.body_used());
}

#[test]
fn text_round_trip() {
    for s in ["", "plain", "caf\u{e9} \u{1F600} \u{4e2d}", "line\nbreak\ttab"] {
        let mut v = view(200, s.as_bytes(), "u", "u");
        assert_eq!(v.text(), Ok(s.to_string()));
    }
}

#[test]
fn not_found_scenario() {
    let mut v = create_response_object(
        404,
        vec![header("Content-Type", b"text/plain")],
        b"not found".to_vec(),
        "http://h/a",
        "http://h/a",
        "agent/1.0",
        false,
    )
    .unwrap();
    assert_eq!(v.status(), 404);
    assert!(!v.ok());
    assert_eq!(v.status_text(), "Not Found");
    assert!(!v.redirected());
    assert!(!v.body_used());
    assert_eq!(
        v.headers(),
        &vec![("Content-Type".to_string(), "text/plain".to_string())]
    );
    assert_eq!(v.text(), Ok("not found".to_string()));
    assert!(v.body_used());
    assert_eq!(v.text(), Err(FetchError::BodyAlreadyConsumed));
}

#[test]
fn malformed_json_fails_and_consumes() {
    let mut v = view(200, b"{not json", "u", "u");
    match v.json() {
        Err(FetchError::MalformedJson(message)) => assert!(!message.is_empty()),
        other => panic!("expected MalformedJson, got {:?}", other),
    }
    assert!(v.body_used());
    assert_eq!(v.bytes(), Err(FetchError::BodyAlreadyConsumed));
}

#[test]
fn invalid_utf8_fails_text_and_json() {
    let mut v = view(200, &[0x66, 0xff, 0x6f], "u", "u");
    assert_eq!(v.text(), Err(FetchError::InvalidEncoding));
    assert!(v.body_used());
    let mut w = view(200, &[0xc0, 0x80], "u", "u");
    assert!(matches!(w.json(), Err(FetchError::InvalidEncoding)));
    let mut surrogate = view(200, &[0xed, 0xa0, 0x80], "u", "u");
    assert_eq!(surrogate.text(), Err(FetchError::InvalidEncoding));
}

#[test]
fn binary_body_reads_as_bytes_blob_and_form() {
    let raw: &[u8] = &[0, 159, 255, 10];
    assert_eq!(view(200, raw, "u", "u").bytes(), Ok(raw.to_vec()));
    assert_eq!(view(200, raw, "u", "u").array_buffer(), Ok(raw.to_vec()));
    assert_eq!(
        view(200, raw, "u", "u").blob(),
        Ok(Blob { bytes: raw.to_vec(), mime_type: None })
    );
    assert_eq!(
        view(200, raw, "u", "u").form_data(),
        Ok(FormData { fields: vec![("body".to_string(), raw.to_vec())] })
    );
}

#[test]
fn empty_body_reads() {
    assert_eq!(view(204, b"", "u", "u").text(), Ok(String::new()));
    assert_eq!(view(204, b"", "u", "u").bytes(), Ok(Vec::new()));
    assert!(matches!(view(204, b"", "u", "u").json(), Err(FetchError::MalformedJson(_))));
}

#[test]
fn headers_copied_in_order_with_case_kept() {
    let v = create_response_object(
        200,
        vec![
            header("X-Trace", b"abc\tdef"),
            header("content-type", b"application/json"),
            header("Set-Cookie", b"a=1"),
            header("Set-Cookie", b"b=2"),
        ],
        Vec::new(),
        "u",
        "u",
        "ua",
        true,
    )
    .unwrap();
    let expected: Vec<(String, String)> = vec![
        ("X-Trace".to_string(), "abc\tdef".to_string()),
        ("content-type".to_string(), "application/json".to_string()),
        ("Set-Cookie".to_string(), "a=1".to_string()),
        ("Set-Cookie".to_string(), "b=2".to_string()),
    ];
    assert_eq!(v.headers(), &expected);
    assert!(v.request_had_body());
    assert!(!v.body_used());
}

#[test]
fn header_that_is_not_text_fails_construction() {
    let r = create_response_object(
        200,
        vec![
            header("A", b"fine"),
            header("B", &[0x63, 0xe9]),
            header("C", &[0x7f]),
        ],
        Vec::new(),
        "u",
        "u",
        "ua",
        false,
    );
    assert_eq!(r.err(), Some(FetchError::HeaderEncodingError("B".to_string())));
    let control = create_response_object(
        200,
        vec![header("D", &[0x01])],
        Vec::new(),
        "u",
        "u",
        "ua",
        false,
    );
    assert_eq!(control.err(), Some(FetchError::HeaderEncodingError("D".to_string())));
}

#[test]
fn status_text_uses_table_or_unknown() {
    assert_eq!(status_text(200), "OK");
    assert_eq!(status_text(404), "Not Found");
    assert_eq!(status_text(418), "I'm a teapot");
    assert_eq!(status_text(503), "Service Unavailable");
    assert_eq!(status_text(599), "Unknown");
    assert_eq!(status_text(99), "Unknown");
    assert_eq!(status_text(1000), "Unknown");
    assert_eq!(view(599, b"", "u", "u").status_text(), "Unknown");
    assert_eq!(reason_or_unknown(Some("Teapot".to_string())), "Teapot");
    assert_eq!(reason_or_unknown(None), "Unknown");
}

#[test]
fn methods_parse_exactly() {
    let cases = [
        ("GET", Method::Get),
        ("POST", Method::Post),
        ("PUT", Method::Put),
        ("DELETE", Method::Delete),
        ("PATCH", Method::Patch),
        ("HEAD", Method::Head),
        ("OPTIONS", Method::Options),
        ("TRACE", Method::Trace),
    ];
    for (token, method) in cases {
        assert_eq!(parse_method(token), Ok(method));
    }
    for token in ["get", "CONNECT", "", "GET ", "GETS", "POS"] {
        assert_eq!(parse_method(token), Err(FetchError::InvalidMethod));
    }
}

#[test]
fn malformed_json_carries_parser_diagnostic() {
    let expected = serde_json::from_str::<serde_json::Value>("{not json")
        .unwrap_err()
        .to_string();
    let mut v = view(200, b"{not json", "u", "u");
    assert_eq!(v.json(), Err(FetchError::MalformedJson(expected)));
    let mut w = view(200, b"[1, 2", "u", "u");
    assert_eq!(
        w.json(),
        Err(FetchError::MalformedJson("EOF while parsing a list at line 1 column 5".to_string()))
    );
}

#[test]
fn json_returns_the_parsed_value() {
    let mut v = view(200, b"[1, \"a\", null]", "u", "u");
    let expected = serde_json::Value::Array(vec![
        serde_json::Value::from(1),
        serde_json::Value::from("a"),
        serde_json::Value::Null,
    ]);
    assert_eq!(v.json(), Ok(expected));
    let mut n = view(200, b"7", "u", "u");
    assert_eq!(n.json(), Ok(serde_json::Value::from(7)));
}

#[test]
fn body_accessor_does_not_consume() {
    let mut v = view(200, b"payload", "u", "u");
    assert_eq!(v.body(), b"payload");
    assert!(!v.body_used());
    assert_eq!(v.text(), Ok("payload".to_string()));
    assert_eq!(v.body(), b"payload");
}
