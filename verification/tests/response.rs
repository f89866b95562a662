use tokio_minihttp::date::now;
use tokio_minihttp::response::{encode, encode_dated, push_decimal};
use tokio_minihttp::Response;

const DATE: &str = "Sun, 06 Nov 1994 08:49:37 GMT";

fn dated(r: Response) -> String {
    let mut buf = Vec::new();
    encode_dated(r, DATE, &mut buf);
    String::from_utf8(buf).unwrap()
}

#[test]
fn new_response_is_200_ok_with_empty_body() {
    assert_eq!(
        dated(Response::new()),
        "HTTP/1.1 200 OK\r\nServer: Example\r\nContent-Length: 0\r\nDate: Sun, 06 Nov 1994 08:49:37 GMT\r\n\r\n"
    );
}

#[test]
fn plaintext_response_bytes() {
    let mut r = Response::new();
    r.header("Content-Type", "text/plain").body("Hello, World!");
    assert_eq!(
        dated(r),
        "HTTP/1.1 200 OK\r\nServer: Example\r\nContent-Length: 13\r\nDate: Sun, 06 Nov 1994 08:49:37 GMT\r\nContent-Type: text/plain\r\n\r\nHello, World!"
    );
}

#[test]
fn status_code_sets_status_line_only() {
    let mut r = Response::new();
    r.body("gone").status_code(404, "Not Found");
    assert_eq!(
        dated(r),
        "HTTP/1.1 404 Not Found\r\nServer: Example\r\nContent-Length: 4\r\nDate: Sun, 06 Nov 1994 08:49:37 GMT\r\n\r\ngone"
    );
}

#[test]
fn headers_keep_their_order_and_body_is_replaced() {
    let mut r = Response::new();
    r.header("A", "1").body("first").header("B", "2").body("second");
    assert_eq!(
        dated(r),
        "HTTP/1.1 200 OK\r\nServer: Example\r\nContent-Length: 6\r\nDate: Sun, 06 Nov 1994 08:49:37 GMT\r\nA: 1\r\nB: 2\r\n\r\nsecond"
    );
}

#[test]
fn content_length_counts_bytes_not_chars() {
    let mut r = Response::new();
    r.body("h\u{e9}llo \u{1F600}");
    let out = dated(r);
    assert!(out.contains("\r\nContent-Length: 11\r\n"));
    assert!(out.ends_with("\r\n\r\nh\u{e9}llo \u{1F600}"));
}

#[test]
fn encode_appends_to_existing_bytes() {
    let mut buf = b"previous".to_vec();
    encode_dated(Response::new(), DATE, &mut buf);
    assert!(buf.starts_with(b"previousHTTP/1.1 200 OK\r\n"));
}

#[test]
fn extreme_status_codes_render_in_decimal() {
    let mut r = Response::new();
    r.status_code(0, "");
    assert!(dated(r).starts_with("HTTP/1.1 0 \r\n"));
    let mut r = Response::new();
    r.status_code(u32::MAX, "Max");
    assert!(dated(r).starts_with("HTTP/1.1 4294967295 Max\r\n"));
}

#[test]
fn push_decimal_values() {
    for (n, s) in [(0u64, "0"), (7, "7"), (10, "10"), (404, "404"), (u64::MAX, "18446744073709551615")] {
        let mut buf = Vec::new();
        push_decimal(&mut buf, n);
        assert_eq!(buf, s.as_bytes());
        assert_eq!(std::str::from_utf8(&buf).unwrap().parse::<u64>().unwrap(), n);
    }
}

#[test]
fn encode_stamps_current_date() {
    let mut r = Response::new();
    r.body("x");
    let mut buf = Vec::new();
    encode(r, &mut buf);
    let out = String::from_utf8(buf).unwrap();
    assert!(out.starts_with("HTTP/1.1 200 OK\r\nServer: Example\r\nContent-Length: 1\r\nDate: "));
    let date_line = out.lines().nth(3).unwrap();
    let date = date_line.strip_prefix("Date: ").unwrap();
    assert_eq!(date.len(), 29);
    assert!(date.ends_with(" GMT"));
    assert!(out.ends_with("\r\n\r\nx"));
}

#[test]
fn now_is_an_rfc822_gmt_date() {
    let d = now();
    assert_eq!(d.len(), 29);
    assert_eq!(&d[3..5], ", ");
    assert!(d.ends_with(" GMT"));
}
