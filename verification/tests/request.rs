use tokio_minihttp::request::{decode, decode_parsed, take_request, Frame, ParseError, Parser, RawParse, RawRequest};

fn headers_of(req: &tokio_minihttp::Request) -> Vec<(String, Vec<u8>)> {
    let mut it = req.headers();
    let mut out = Vec::new();
    while let Some((n, v)) = it.next() {
        out.push((n.to_string(), v.to_vec()));
    }
    assert!(it.next().is_none());
    out
}

#[test]
fn decode_simple_get() {
    let mut buf = b"GET /plaintext HTTP/1.1\r\nHost: localhost\r\nAccept: */*\r\n\r\n".to_vec();
    let req = decode(&mut buf).unwrap().unwrap();
    assert_eq!(req.method(), "GET");
    assert_eq!(req.path(), "/plaintext");
    assert_eq!(req.version(), 1);
    assert_eq!(
        headers_of(&req),
        vec![("Host".to_string(), b"localhost".to_vec()), ("Accept".to_string(), b"*/*".to_vec())]
    );
    assert!(buf.is_empty());
}

#[test]
fn decode_http10_without_headers() {
    let mut buf = b"HEAD /a?b=c HTTP/1.0\r\n\r\n".to_vec();
    let req = decode(&mut buf).unwrap().unwrap();
    assert_eq!(req.method(), "HEAD");
    assert_eq!(req.path(), "/a?b=c");
    assert_eq!(req.version(), 0);
    assert!(headers_of(&req).is_empty());
}

#[test]
fn decode_leaves_body_and_next_request_in_buffer() {
    let mut buf = b"POST /json HTTP/1.1\r\nContent-Length: 3\r\n\r\nabcGET / HTTP/1.1\r\n\r\n".to_vec();
    let req = decode(&mut buf).unwrap().unwrap();
    assert_eq!(req.method(), "POST");
    assert_eq!(buf, b"abcGET / HTTP/1.1\r\n\r\n".to_vec());
}

#[test]
fn decode_pipelined_requests_one_at_a_time() {
    let mut buf = b"GET /1 HTTP/1.1\r\n\r\nGET /2 HTTP/1.1\r\n\r\n".to_vec();
    assert_eq!(decode(&mut buf).unwrap().unwrap().path(), "/1");
    assert_eq!(decode(&mut buf).unwrap().unwrap().path(), "/2");
    assert!(buf.is_empty());
    assert!(decode(&mut buf).unwrap().is_none());
}

#[test]
fn decode_partial_keeps_buffer() {
    let mut buf = b"GET / HTTP/1.1\r\nHost:".to_vec();
    assert!(decode(&mut buf).unwrap().is_none());
    assert_eq!(buf, b"GET / HTTP/1.1\r\nHost:".to_vec());
}

#[test]
fn decode_bad_version_is_refused() {
    let mut buf = b"GET / HTTP/2.0\r\n\r\n".to_vec();
    assert_eq!(decode(&mut buf).err(), Some(ParseError::Version));
    assert_eq!(buf, b"GET / HTTP/2.0\r\n\r\n".to_vec());
}

#[test]
fn decode_bad_method_is_refused() {
    let mut buf = b"G\x01T / HTTP/1.1\r\n\r\n".to_vec();
    assert_eq!(decode(&mut buf).err(), Some(ParseError::Token));
}

#[test]
fn decode_bad_header_name_is_refused() {
    let mut buf = b"GET / HTTP/1.1\r\nHo\x01st: x\r\n\r\n".to_vec();
    assert_eq!(decode(&mut buf).err(), Some(ParseError::HeaderName));
}

#[test]
fn decode_sixteen_headers_is_fine_seventeen_too_many() {
    let mut head = String::from("GET / HTTP/1.1\r\n");
    for i in 0..16 {
        head.push_str(&format!("H{}: v\r\n", i));
    }
    let mut ok = format!("{}\r\n", head).into_bytes();
    let req = decode(&mut ok).unwrap().unwrap();
    assert_eq!(headers_of(&req).len(), 16);
    head.push_str("H16: v\r\n");
    let mut too_many = format!("{}\r\n", head).into_bytes();
    assert_eq!(decode(&mut too_many).err(), Some(ParseError::TooManyHeaders));
}

#[test]
fn header_values_may_be_any_bytes() {
    let mut buf = b"GET / HTTP/1.1\r\nX: a\xffb\r\n\r\n".to_vec();
    let req = decode(&mut buf).unwrap().unwrap();
    assert_eq!(headers_of(&req), vec![("X".to_string(), b"a\xffb".to_vec())]);
}

#[test]
fn parser_frames() {
    let mut p = Parser;
    let mut buf = b"GET /x HTTP/1.1\r\n\r\nGET".to_vec();
    match p.parse(&mut buf) {
        Some(Frame::Message(req)) => assert_eq!(req.path(), "/x"),
        _ => panic!("expected a message"),
    }
    assert_eq!(buf, b"GET".to_vec());
    assert!(p.parse(&mut buf).is_none());
    let mut bad = b"GET / HTTP/3.0\r\n\r\n".to_vec();
    assert!(matches!(p.parse(&mut bad), Some(Frame::Error(ParseError::Version))));
    assert!(matches!(p.done(&mut buf), Some(Frame::Done)));
    assert_eq!(buf, b"GET".to_vec());
}

#[test]
fn decode_parsed_complete() {
    let value: &[u8] = b"b";
    let raw = RawParse::Complete(RawRequest {
        len: 5,
        method: Some("PUT"),
        path: Some("/p"),
        version: Some(1),
        headers: vec![("A", value)],
    });
    let (n, req) = decode_parsed(raw).unwrap().unwrap();
    assert_eq!(n, 5);
    assert_eq!(req.method(), "PUT");
    assert_eq!(req.path(), "/p");
    assert_eq!(req.version(), 1);
    assert_eq!(headers_of(&req), vec![("A".to_string(), b"b".to_vec())]);
}

#[test]
fn decode_parsed_partial_and_invalid() {
    assert!(decode_parsed(RawParse::Partial).unwrap().is_none());
    assert_eq!(decode_parsed(RawParse::Invalid(2)).err(), Some(ParseError::NewLine));
}

#[test]
fn error_codes_follow_httparse_declaration_order() {
    let kinds = [
        ParseError::HeaderName,
        ParseError::HeaderValue,
        ParseError::NewLine,
        ParseError::Status,
        ParseError::Token,
        ParseError::TooManyHeaders,
        ParseError::Version,
    ];
    let errors = [
        httparse::Error::HeaderName,
        httparse::Error::HeaderValue,
        httparse::Error::NewLine,
        httparse::Error::Status,
        httparse::Error::Token,
        httparse::Error::TooManyHeaders,
        httparse::Error::Version,
    ];
    for (k, e) in kinds.iter().zip(errors.iter()) {
        assert_eq!(ParseError::from_code(*e as u8), *k);
        assert_eq!(format!("{:?}", k), format!("{:?}", e));
    }
}

#[test]
fn take_request_moves_head_off_buffer() {
    let raw = RawParse::Complete(RawRequest {
        len: 6,
        method: Some("GET"),
        path: Some("/t"),
        version: Some(1),
        headers: Vec::new(),
    });
    let outcome = decode_parsed(raw);
    let mut buf = b"abcdefXYZ".to_vec();
    let req = take_request(outcome, &mut buf).unwrap().unwrap();
    assert_eq!(req.path(), "/t");
    assert_eq!(buf, b"XYZ".to_vec());
}

#[test]
fn take_request_passes_other_outcomes_through() {
    let mut buf = b"abc".to_vec();
    assert!(take_request(Ok(None), &mut buf).unwrap().is_none());
    assert_eq!(buf, b"abc".to_vec());
    assert_eq!(take_request(Err(ParseError::Token), &mut buf).err(), Some(ParseError::Token));
    assert_eq!(buf, b"abc".to_vec());
}

#[test]
fn error_message_names_the_kind() {
    assert_eq!(ParseError::Version.message(), "failed to parse http request: Version");
    assert_eq!(ParseError::TooManyHeaders.message(), "failed to parse http request: TooManyHeaders");
    assert_eq!(ParseError::HeaderName.message(), format!("failed to parse http request: {:?}", httparse::Error::HeaderName));
}

#[test]
fn parsed_parts_come_from_the_received_bytes() {
    let bytes = b"\r\nOPTIONS /x/y HTTP/1.1\r\nX-A: 1\r\nX-Bb: two\r\n\r\nrest".to_vec();
    let mut buf = bytes.clone();
    let req = decode(&mut buf).unwrap().unwrap();
    let head = &bytes[..bytes.len() - buf.len()];
    let within = |part: &[u8]| head.windows(part.len()).any(|w| w == part);
    assert!(within(req.method().as_bytes()));
    assert!(within(req.path().as_bytes()));
    for (n, v) in headers_of(&req) {
        assert!(within(n.as_bytes()));
        assert!(within(&v));
    }
    assert_eq!(buf, b"rest".to_vec());
}
