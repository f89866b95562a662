use vstd::prelude::*;

use crate::date::{rfc822_utc, DATE_SECONDS_MAX, DATE_SECONDS_MIN};

verus! {

/// The bytes of the ASCII decimal digit for `d` (`d < 10`).
pub open spec fn digit_byte(d: nat) -> u8 {
    (48 + d) as u8
}

/// The decimal rendering of `n`, most significant digit first, no leading zeros.
pub open spec fn decimal(n: nat) -> Seq<u8>
    decreases n,
{
    if n < 10 {
        seq![digit_byte(n)]
    } else {
        decimal(n / 10).push(digit_byte(n % 10))
    }
}

/// The number that a string of ASCII decimal digits denotes.
pub open spec fn decimal_value(s: Seq<u8>) -> nat
    decreases s.len(),
{
    if s.len() == 0 {
        0
    } else {
        decimal_value(s.drop_last()) * 10 + (s.last() - 48) as nat
    }
}

/// A decimal rendering is a nonempty string of ASCII digits, without a leading
/// zero, and it reads back as the number rendered.
pub proof fn lemma_decimal_roundtrip(n: nat)
    ensures
        decimal(n).len() >= 1,
        forall|i: int| 0 <= i < decimal(n).len() ==> 48 <= #[trigger] decimal(n)[i] <= 57,
        decimal(n).len() > 1 ==> decimal(n)[0] != 48,
        decimal_value(decimal(n)) == n,
    decreases n,
{
    if n >= 10 {
        lemma_decimal_roundtrip(n / 10);
        let d = decimal(n / 10);
        assert(decimal(n).drop_last() =~= d);
        assert forall|i: int| 0 <= i < decimal(n).len() implies 48 <= #[trigger] decimal(n)[i] <= 57 by {
            if i < d.len() {
                assert(decimal(n)[i] == d[i]);
            }
        }
        assert(decimal(n)[0] == d[0]);
        if d.len() == 1 {
            assert(n / 10 < 10) by {
                if n / 10 >= 10 {
                    lemma_decimal_roundtrip(n / 100);
                    assert(decimal(n / 10).len() == decimal((n / 10) / 10).len() + 1);
                }
            }
            assert(d[0] == digit_byte(n / 10));
        }
        assert(decimal(n).last() == digit_byte(n % 10));
        assert(decimal_value(decimal(n)) == decimal_value(d) * 10 + (n % 10));
    } else {
        assert(decimal(n).drop_last() =~= Seq::<u8>::empty());
        assert(decimal_value(decimal(n)) == decimal_value(Seq::<u8>::empty()) * 10 + n);
    }
}

/// Appends the decimal rendering of `n` to `buf`.
pub fn push_decimal(buf: &mut Vec<u8>, n: u64)
    ensures
        final(buf)@ == old(buf)@ + decimal(n as nat),
    decreases n,
{
    if n >= 10 {
        push_decimal(buf, n / 10);
    }
    let d: u8 = (n % 10) as u8;
    buf.push(48u8 + d);
    proof {
        assert(digit_byte((n % 10) as nat) == 48u8 + d);
    }
}


/// The UTF-8 bytes of a character sequence.
pub open spec fn utf8(s: Seq<char>) -> Seq<u8> {
    vstd::utf8::encode_utf8(s)
}

/// The abstract content of a response under construction.
pub struct ResponseView {
    pub headers: Seq<(Seq<char>, Seq<char>)>,
    pub body: Seq<char>,
    pub status_code: u32,
    pub status_message: Seq<char>,
}

/// A response to be written back to the client: status line, extra headers, body.
pub struct Response {
    headers: Vec<(String, String)>,
    response: String,
    status_code: u32,
    status_message: String,
}

impl View for Response {
    type V = ResponseView;

    closed spec fn view(&self) -> ResponseView {
        ResponseView {
            headers: self.headers@.map_values(|h: (String, String)| (h.0@, h.1@)),
            body: self.response@,
            status_code: self.status_code,
            status_message: self.status_message@,
        }
    }
}

impl Response {
    /// A `200 OK` response with no extra headers and an empty body.
    pub fn new() -> (r: Response)
        ensures
            r@.headers == Seq::<(Seq<char>, Seq<char>)>::empty(),
            r@.body == Seq::<char>::empty(),
            r@.status_code == 200,
            r@.status_message == "OK"@,
    {
        let r = Response {
            headers: Vec::new(),
            response: String::new(),
            status_code: 200,
            status_message: "OK".to_owned(),
        };
        assert(r@.headers =~= Seq::<(Seq<char>, Seq<char>)>::empty());
        r
    }

    /// Sets the status code and the reason phrase of the status line.
    pub fn status_code(&mut self, code: u32, message: &str) -> (ret: &mut Response)
        ensures
            ret@ == (ResponseView { status_code: code, status_message: message@, ..old(self)@ }),
            final(self)@ == final(ret)@,
    {
        self.status_code = code;
        self.status_message = message.to_owned();
        self
    }

    /// Appends an extra header line `name: val`.
    pub fn header(&mut self, name: &str, val: &str) -> (ret: &mut Response)
        ensures
            ret@ == (ResponseView { headers: old(self)@.headers.push((name@, val@)), ..old(self)@ }),
            final(self)@ == final(ret)@,
    {
        self.headers.push((name.to_owned(), val.to_owned()));
        assert(self@.headers =~= old(self)@.headers.push((name@, val@)));
        self
    }

    /// Replaces the body.
    pub fn body(&mut self, s: &str) -> (ret: &mut Response)
        ensures
            ret@ == (ResponseView { body: s@, ..old(self)@ }),
            final(self)@ == final(ret)@,
    {
        self.response = s.to_owned();
        self
    }
}


/// The header lines `name: value\r\n`, one per extra header, in order.
pub open spec fn header_lines(h: Seq<(Seq<char>, Seq<char>)>) -> Seq<u8>
    decreases h.len(),
{
    if h.len() == 0 {
        Seq::<u8>::empty()
    } else {
        header_lines(h.drop_last()) + utf8(h.last().0) + utf8(": "@) + utf8(h.last().1) + utf8(
            "\r\n"@,
        )
    }
}

/// The status line and the fixed headers, up to and including the `Date` line.
pub open spec fn head_bytes(r: ResponseView, date: Seq<char>) -> Seq<u8> {
    utf8("HTTP/1.1 "@) + decimal(r.status_code as nat) + utf8(" "@) + utf8(r.status_message)
        + utf8("\r\nServer: Example\r\nContent-Length: "@) + decimal(utf8(r.body).len() as usize as nat)
        + utf8("\r\nDate: "@) + utf8(date) + utf8("\r\n"@)
}

/// The full HTTP/1.1 message for response `r` sent at `date`.
pub open spec fn response_bytes(r: ResponseView, date: Seq<char>) -> Seq<u8> {
    head_bytes(r, date) + header_lines(r.headers) + utf8("\r\n"@) + utf8(r.body)
}

/// The body is exactly the last bytes of the message, as many as the
/// `Content-Length` line announces, and the message opens with the status line.
pub proof fn lemma_body_closes_message(r: ResponseView, date: Seq<char>)
    ensures
        ({
            let m = response_bytes(r, date);
            let l = utf8(r.body).len();
            &&& l <= m.len()
            &&& m.subrange(m.len() - l, m.len() as int) == utf8(r.body)
            &&& m.take(utf8("HTTP/1.1 "@).len() as int) == utf8("HTTP/1.1 "@)
        }),
{
    let m = response_bytes(r, date);
    let l = utf8(r.body).len();
    let front = head_bytes(r, date) + header_lines(r.headers) + utf8("\r\n"@);
    assert(m =~= front + utf8(r.body));
    assert(m.subrange(m.len() - l, m.len() as int) =~= utf8(r.body));
    let s = utf8("HTTP/1.1 "@);
    assert(m.take(s.len() as int) =~= s);
}

/// Each extra header adds exactly its own line, `name: value\r\n`, after the lines
/// of the headers before it; with no extra headers there are no lines.
pub proof fn lemma_header_lines_push(h: Seq<(Seq<char>, Seq<char>)>, name: Seq<char>, value: Seq<char>)
    ensures
        header_lines(Seq::<(Seq<char>, Seq<char>)>::empty()) == Seq::<u8>::empty(),
        header_lines(h.push((name, value))) == header_lines(h) + utf8(name) + utf8(": "@) + utf8(value)
            + utf8("\r\n"@),
{
    assert(h.push((name, value)).drop_last() =~= h);
}

/// The `Content-Length` line tells the body's length: right after the status line
/// and `Server` line comes `Content-Length: `, then a nonempty run of ASCII digits
/// that reads back as the body's byte length, then the line break.
pub proof fn lemma_content_length_is_body_length(r: ResponseView, date: Seq<char>)
    requires
        utf8(r.body).len() <= usize::MAX,
    ensures
        ({
            let m = response_bytes(r, date);
            let pre = utf8("HTTP/1.1 "@) + decimal(r.status_code as nat) + utf8(" "@) + utf8(
                r.status_message,
            ) + utf8("\r\nServer: Example\r\nContent-Length: "@);
            exists|k: int|
                #![trigger m.subrange(pre.len() as int, pre.len() + k)]
                {
                    &&& 1 <= k
                    &&& pre.len() + k + utf8("\r\nDate: "@).len() <= m.len()
                    &&& m.take(pre.len() as int) == pre
                    &&& forall|i: int| pre.len() <= i < pre.len() + k ==> 48 <= #[trigger] m[i] <= 57
                    &&& decimal_value(m.subrange(pre.len() as int, pre.len() + k)) == utf8(r.body).len()
                    &&& m.subrange(pre.len() + k, pre.len() + k + utf8("\r\nDate: "@).len())
                        == utf8("\r\nDate: "@)
                }
        }),
{
    let m = response_bytes(r, date);
    let pre = utf8("HTTP/1.1 "@) + decimal(r.status_code as nat) + utf8(" "@) + utf8(r.status_message)
        + utf8("\r\nServer: Example\r\nContent-Length: "@);
    let l = utf8(r.body).len();
    let digits = decimal(l as usize as nat);
    let dl = utf8("\r\nDate: "@);
    let tail = utf8(date) + utf8("\r\n"@) + header_lines(r.headers) + utf8("\r\n"@) + utf8(r.body);
    assert(m =~= pre + digits + dl + tail);
    lemma_decimal_roundtrip(l as usize as nat);
    let k = digits.len() as int;
    assert(m.take(pre.len() as int) =~= pre);
    assert(m.subrange(pre.len() as int, pre.len() + k) =~= digits);
    assert(m.subrange(pre.len() + k, pre.len() + k + dl.len()) =~= dl);
    assert forall|i: int| pre.len() <= i < pre.len() + k implies 48 <= #[trigger] m[i] <= 57 by {
        assert(m[i] == digits[i - pre.len()]);
    }
}

/// Appends `bytes` to `buf`.
fn append_bytes(buf: &mut Vec<u8>, bytes: &[u8])
    ensures
        final(buf)@ == old(buf)@ + bytes@,
{
    buf.extend_from_slice(bytes);
    assert(buf@ =~= old(buf)@ + bytes@);
}

/// Appends the UTF-8 bytes of `s` to `buf`.
fn append_str(buf: &mut Vec<u8>, s: &str)
    ensures
        final(buf)@ == old(buf)@ + utf8(s@),
{
    append_bytes(buf, s.as_bytes());
}

/// Writes the status line and the fixed headers of `msg` to the end of `buf`.
fn write_head(msg: &Response, date: &str, buf: &mut Vec<u8>)
    ensures
        final(buf)@ == old(buf)@ + head_bytes(msg@, date@),
{
    let ghost o = buf@;
    let ghost r = msg@;
    let length: usize = msg.response.as_str().len();
    append_str(buf, "HTTP/1.1 ");
    let ghost p = utf8("HTTP/1.1 "@);
    push_decimal(buf, msg.status_code as u64);
    assert(buf@ =~= o + (p + decimal(r.status_code as nat)));
    let ghost p = p + decimal(r.status_code as nat);
    append_str(buf, " ");
    assert(buf@ =~= o + (p + utf8(" "@)));
    let ghost p = p + utf8(" "@);
    append_str(buf, msg.status_message.as_str());
    assert(buf@ =~= o + (p + utf8(r.status_message)));
    let ghost p = p + utf8(r.status_message);
    append_str(buf, "\r\nServer: Example\r\nContent-Length: ");
    assert(buf@ =~= o + (p + utf8("\r\nServer: Example\r\nContent-Length: "@)));
    let ghost p = p + utf8("\r\nServer: Example\r\nContent-Length: "@);
    push_decimal(buf, length as u64);
    assert(buf@ =~= o + (p + decimal(utf8(r.body).len() as usize as nat)));
    let ghost p = p + decimal(utf8(r.body).len() as usize as nat);
    append_str(buf, "\r\nDate: ");
    assert(buf@ =~= o + (p + utf8("\r\nDate: "@)));
    let ghost p = p + utf8("\r\nDate: "@);
    append_str(buf, date);
    assert(buf@ =~= o + (p + utf8(date@)));
    let ghost p = p + utf8(date@);
    append_str(buf, "\r\n");
    assert(buf@ =~= o + (p + utf8("\r\n"@)));
}

/// Writes the extra header lines of `msg` to the end of `buf`.
fn write_header_lines(msg: &Response, buf: &mut Vec<u8>)
    ensures
        final(buf)@ == old(buf)@ + header_lines(msg@.headers),
{
    let ghost head = buf@;
    let n: usize = msg.headers.len();
    let ghost hs = msg@.headers;
    assert(hs.take(0) =~= Seq::<(Seq<char>, Seq<char>)>::empty());
    assert(buf@ =~= head + header_lines(hs.take(0)));
    for i in 0..n
        invariant
            n == msg.headers@.len(),
            hs == msg@.headers,
            buf@ == head + header_lines(hs.take(i as int)),
    {
        let ghost before = buf@;
        let ghost line = hs[i as int];
        append_str(buf, msg.headers[i].0.as_str());
        append_str(buf, ": ");
        append_str(buf, msg.headers[i].1.as_str());
        append_str(buf, "\r\n");
        assert(hs.take(i + 1).drop_last() =~= hs.take(i as int));
        assert(hs.take(i + 1).last() == line);
        assert(buf@ =~= head + (header_lines(hs.take(i as int)) + utf8(line.0) + utf8(": "@)
            + utf8(line.1) + utf8("\r\n"@)));
    }
    assert(hs.take(n as int) =~= hs);
}

/// Writes `msg` as an HTTP/1.1 message stamped with `date` at the end of `buf`.
pub fn encode_dated(msg: Response, date: &str, buf: &mut Vec<u8>)
    ensures
        final(buf)@ == old(buf)@ + response_bytes(msg@, date@),
{
    let ghost o = buf@;
    let ghost r = msg@;
    write_head(&msg, date, buf);
    write_header_lines(&msg, buf);
    assert(buf@ =~= o + (head_bytes(r, date@) + header_lines(r.headers)));
    let ghost p = head_bytes(r, date@) + header_lines(r.headers);
    append_str(buf, "\r\n");
    assert(buf@ =~= o + (p + utf8("\r\n"@)));
    let ghost p = p + utf8("\r\n"@);
    append_str(buf, msg.response.as_str());
    assert(buf@ =~= o + (p + utf8(r.body)));
}


/// Writes `msg` as an HTTP/1.1 message, stamped with the current date, at the end of `buf`.
pub fn encode(msg: Response, buf: &mut Vec<u8>)
    ensures
        exists|sec: i64, nsec: i32|
            DATE_SECONDS_MIN <= sec <= DATE_SECONDS_MAX && 0 <= nsec < 1_000_000_000
                && final(buf)@ == old(buf)@ + response_bytes(msg@, #[trigger] rfc822_utc(sec, nsec)),
{
    let ghost r = msg@;
    let now = crate::date::now();
    let ghost (sec, nsec) = choose|sec: i64, nsec: i32|
        DATE_SECONDS_MIN <= sec <= DATE_SECONDS_MAX && 0 <= nsec < 1_000_000_000
            && now@ == #[trigger] rfc822_utc(sec, nsec);
    encode_dated(msg, now.as_str(), buf);
    assert(buf@ == old(buf)@ + response_bytes(r, rfc822_utc(sec, nsec)));
}

} // verus!
