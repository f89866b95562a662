use vstd::prelude::*;

use crate::response::utf8;

use httparse::Status::{Complete, Partial};

verus! {

/// The largest number of headers a request may carry.
pub const MAX_HEADERS: usize = 16;

/// Why a request could not be parsed (one kind per `httparse::Error`).
#[derive(Debug, Clone, Copy, PartialEq, Eq, Structural)]
pub enum ParseError {
    /// Invalid byte in a header name.
    HeaderName,
    /// Invalid byte in a header value.
    HeaderValue,
    /// Invalid byte in a line ending.
    NewLine,
    /// Invalid byte in a response status.
    Status,
    /// Invalid byte where a token is required.
    Token,
    /// More headers than `MAX_HEADERS`.
    TooManyHeaders,
    /// Invalid byte in the HTTP version.
    Version,
}

/// The kind of parse error for the discriminant of an `httparse::Error`, in the
/// order in which that enum declares its variants.
pub open spec fn error_of_code(c: u8) -> ParseError {
    if c == 0 {
        ParseError::HeaderName
    } else if c == 1 {
        ParseError::HeaderValue
    } else if c == 2 {
        ParseError::NewLine
    } else if c == 3 {
        ParseError::Status
    } else if c == 4 {
        ParseError::Token
    } else if c == 5 {
        ParseError::TooManyHeaders
    } else {
        ParseError::Version
    }
}

impl ParseError {
    /// The kind of parse error for the discriminant of an `httparse::Error`.
    pub fn from_code(c: u8) -> (e: ParseError)
        ensures
            e == error_of_code(c),
    {
        if c == 0 {
            ParseError::HeaderName
        } else if c == 1 {
            ParseError::HeaderValue
        } else if c == 2 {
            ParseError::NewLine
        } else if c == 3 {
            ParseError::Status
        } else if c == 4 {
            ParseError::Token
        } else if c == 5 {
            ParseError::TooManyHeaders
        } else {
            ParseError::Version
        }
    }
}

/// The name of a parse error kind, as `{:?}` prints the matching `httparse::Error`.
pub open spec fn error_name(e: ParseError) -> Seq<char> {
    match e {
        ParseError::HeaderName => "HeaderName"@,
        ParseError::HeaderValue => "HeaderValue"@,
        ParseError::NewLine => "NewLine"@,
        ParseError::Status => "Status"@,
        ParseError::Token => "Token"@,
        ParseError::TooManyHeaders => "TooManyHeaders"@,
        ParseError::Version => "Version"@,
    }
}

impl ParseError {
    /// The text of the error that a refused request is answered with.
    pub fn message(&self) -> (m: String)
        ensures
            m@ == "failed to parse http request: "@ + error_name(*self),
    {
        let name: &str = match self {
            ParseError::HeaderName => "HeaderName",
            ParseError::HeaderValue => "HeaderValue",
            ParseError::NewLine => "NewLine",
            ParseError::Status => "Status",
            ParseError::Token => "Token",
            ParseError::TooManyHeaders => "TooManyHeaders",
            ParseError::Version => "Version",
        };
        let mut m = String::from_str("failed to parse http request: ");
        m.append(name);
        m
    }
}

/// A request line and headers as `httparse` found them, still borrowed from the buffer.
pub struct RawRequest<'b> {
    /// Number of bytes of the buffer that the head of the request takes.
    pub len: usize,
    pub method: Option<&'b str>,
    pub path: Option<&'b str>,
    /// Minor version: `1` for `HTTP/1.1`.
    pub version: Option<u8>,
    pub headers: Vec<(&'b str, &'b [u8])>,
}

/// The outcome of one `httparse` pass over a buffer.
pub enum RawParse<'b> {
    /// The head of a request is complete.
    Complete(RawRequest<'b>),
    /// More bytes are needed.
    Partial,
    /// The bytes are not a request: the position of the `httparse::Error` variant
    /// in its declaration (see `ParseError::from_code`).
    Invalid(u8),
}

pub struct RawRequestView {
    pub len: nat,
    pub method: Option<Seq<char>>,
    pub path: Option<Seq<char>>,
    pub version: Option<u8>,
    pub headers: Seq<(Seq<char>, Seq<u8>)>,
}

pub enum RawParseView {
    Complete(RawRequestView),
    Partial,
    Invalid(u8),
}

pub open spec fn opt_str_view(o: Option<&str>) -> Option<Seq<char>> {
    match o {
        Some(s) => Some(s@),
        None => None,
    }
}

impl<'b> View for RawRequest<'b> {
    type V = RawRequestView;

    open spec fn view(&self) -> RawRequestView {
        RawRequestView {
            len: self.len as nat,
            method: opt_str_view(self.method),
            path: opt_str_view(self.path),
            version: self.version,
            headers: self.headers@.map_values(|h: (&str, &[u8])| (h.0@, h.1@)),
        }
    }
}

impl<'b> View for RawParse<'b> {
    type V = RawParseView;

    open spec fn view(&self) -> RawParseView {
        match self {
            RawParse::Complete(r) => RawParseView::Complete(r@),
            RawParse::Partial => RawParseView::Partial,
            RawParse::Invalid(c) => RawParseView::Invalid(*c),
        }
    }
}

/// `part` occurs in `whole` as a run of consecutive bytes.
pub open spec fn occurs_in(part: Seq<u8>, whole: Seq<u8>) -> bool {
    exists|i: int| 0 <= i && i + part.len() <= whole.len() && #[trigger] whole.subrange(i, i + part.len()) == part
}

/// Method, path and every header name and value of `r` are bytes of `head`.
pub open spec fn raw_within(r: RawRequestView, head: Seq<u8>) -> bool {
    &&& (r.method matches Some(m) ==> occurs_in(utf8(m), head))
    &&& (r.path matches Some(p) ==> occurs_in(utf8(p), head))
    &&& forall|j: int| 0 <= j < r.headers.len() ==> occurs_in(utf8(#[trigger] r.headers[j].0), head)
        && occurs_in(r.headers[j].1, head)
}

/// Method, path and every header name and value of `v` are bytes of its taken head.
pub open spec fn request_within(v: RequestView) -> bool {
    &&& v.data is Some
    &&& occurs_in(utf8(v.method), v.data->Some_0)
    &&& occurs_in(utf8(v.path), v.data->Some_0)
    &&& forall|j: int| 0 <= j < v.headers.len() ==> occurs_in(utf8(#[trigger] v.headers[j].0), v.data->Some_0)
        && occurs_in(v.headers[j].1, v.data->Some_0)
}

/// What `httparse::Request::parse` makes of `buf` with room for `max_headers` headers.
pub uninterp spec fn httparse_request(buf: Seq<u8>, max_headers: usize) -> RawParseView;

/// Parses the head of a request with `httparse::Request::parse`, into a header array
/// of `max_headers` entries. The outcome is named `httparse_request`. On a complete
/// parse the source sets method, path and version, counts the consumed bytes within
/// the buffer, and shrinks the header array to the headers it filled; method, path
/// and headers are slices of the bytes it consumed. An error is
/// handed out as its discriminant: `httparse::Error` declares seven variants.
#[verifier::external_body]
fn parse_with_httparse<'b>(buf: &'b [u8], max_headers: usize) -> (res: RawParse<'b>)
    ensures
        res@ == httparse_request(buf@, max_headers),
        res matches RawParse::Complete(r) ==> {
            &&& r.len <= buf@.len()
            &&& r.method is Some
            &&& r.path is Some
            &&& r.version is Some
            &&& r.headers@.len() <= max_headers
            &&& raw_within(r@, buf@.take(r.len as int))
        },
        res matches RawParse::Invalid(c) ==> c < 7,
{
    let mut hs = vec![httparse::EMPTY_HEADER; max_headers];
    let mut r = httparse::Request::new(&mut hs);
    let st = r.parse(buf);
    let headers = r.headers.iter().map(|h| (h.name, h.value)).collect();
    match st {
        Ok(Complete(len)) => RawParse::Complete(RawRequest { len, method: r.method, path: r.path, version: r.version, headers }),
        Ok(Partial) => RawParse::Partial,
        Err(e) => RawParse::Invalid(e as u8),
    }
}

/// The abstract content of a request.
pub struct RequestView {
    pub method: Seq<char>,
    pub path: Seq<char>,
    pub version: u8,
    pub headers: Seq<(Seq<char>, Seq<u8>)>,
    /// The bytes of the request head, once it has been taken off the buffer.
    pub data: Option<Seq<u8>>,
}

/// A parsed HTTP request: method, path, minor version and headers.
pub struct Request {
    method: String,
    path: String,
    version: u8,
    headers: Vec<(String, Vec<u8>)>,
    data: Option<Vec<u8>>,
}

pub open spec fn opt_bytes_view(o: Option<Vec<u8>>) -> Option<Seq<u8>> {
    match o {
        Some(v) => Some(v@),
        None => None,
    }
}

impl View for Request {
    type V = RequestView;

    closed spec fn view(&self) -> RequestView {
        RequestView {
            method: self.method@,
            path: self.path@,
            version: self.version,
            headers: self.headers@.map_values(|h: (String, Vec<u8>)| (h.0@, h.1@)),
            data: opt_bytes_view(self.data),
        }
    }
}

/// The request that a complete parse `r` describes, before its bytes are taken.
pub open spec fn request_of(r: RawRequestView) -> RequestView {
    RequestView {
        method: r.method.unwrap(),
        path: r.path.unwrap(),
        version: r.version.unwrap(),
        headers: r.headers,
        data: None,
    }
}

/// Builds an owned request from a complete parse.
fn own_request(raw: &RawRequest<'_>) -> (req: Request)
    requires
        raw.method is Some,
        raw.path is Some,
        raw.version is Some,
    ensures
        req@ == request_of(raw@),
        req@.method == raw.method->Some_0@,
        req@.path == raw.path->Some_0@,
        req@.version == raw.version->Some_0,
        req@.headers == raw@.headers,
        req@.data is None,
{
    let method: &str = raw.method.unwrap();
    let path: &str = raw.path.unwrap();
    let version: u8 = raw.version.unwrap();
    let n: usize = raw.headers.len();
    let mut headers: Vec<(String, Vec<u8>)> = Vec::new();
    let ghost hs = raw@.headers;
    for i in 0..n
        invariant
            n == raw.headers@.len(),
            hs == raw@.headers,
            headers@.len() == i,
            forall|j: int|
                0 <= j < i ==> (#[trigger] headers@[j]).0@ == hs[j].0 && headers@[j].1@ == hs[j].1,
    {
        let (name, value) = raw.headers[i];
        headers.push((name.to_owned(), vstd::slice::slice_to_vec(value)));
    }
    let req = Request { method: method.to_owned(), path: path.to_owned(), version, headers, data: None };
    assert(req@.headers =~= hs);
    req
}

/// What one parse pass yields: the length of a complete head with its request
/// (bytes not yet taken), nothing yet, or the reason the bytes are refused.
pub open spec fn outcome_of(p: RawParseView) -> Result<Option<(nat, RequestView)>, ParseError> {
    match p {
        RawParseView::Complete(r) => Ok(Some((r.len, request_of(r)))),
        RawParseView::Partial => Ok(None),
        RawParseView::Invalid(c) => Err(error_of_code(c)),
    }
}

pub open spec fn outcome_view(o: Result<Option<(usize, Request)>, ParseError>) -> Result<
    Option<(nat, RequestView)>,
    ParseError,
> {
    match o {
        Ok(Some((n, req))) => Ok(Some((n as nat, req@))),
        Ok(None) => Ok(None),
        Err(e) => Err(e),
    }
}

/// Turns one parse pass into its outcome.
pub fn decode_parsed(raw: RawParse<'_>) -> (res: Result<Option<(usize, Request)>, ParseError>)
    requires
        raw matches RawParse::Complete(r) ==> r.method is Some && r.path is Some && r.version is Some,
    ensures
        outcome_view(res) == outcome_of(raw@),
{
    match raw {
        RawParse::Complete(r) => {
            let req = own_request(&r);
            Ok(Some((r.len, req)))
        },
        RawParse::Partial => Ok(None),
        RawParse::Invalid(c) => Err(ParseError::from_code(c)),
    }
}


pub open spec fn decoded_view(o: Result<Option<Request>, ParseError>) -> Result<Option<RequestView>, ParseError> {
    match o {
        Ok(Some(req)) => Ok(Some(req@)),
        Ok(None) => Ok(None),
        Err(e) => Err(e),
    }
}

/// What decoding `buf` yields, and the bytes left in the buffer afterwards, when
/// `httparse` makes `p` of it: a complete head is taken off the front of the buffer
/// and kept in the request; otherwise the buffer stays as it is.
pub open spec fn decode_step(p: RawParseView, buf: Seq<u8>) -> (Result<Option<RequestView>, ParseError>, Seq<u8>) {
    match p {
        RawParseView::Complete(r) => (
            Ok(Some(RequestView { data: Some(buf.take(r.len as int)), ..request_of(r) })),
            buf.skip(r.len as int),
        ),
        RawParseView::Partial => (Ok(None), buf),
        RawParseView::Invalid(c) => (Err(error_of_code(c)), buf),
    }
}

/// What taking the outcome `o` of a parse pass off `buf` yields, and the bytes left:
/// a complete head of `n` bytes is moved from the front of the buffer into the
/// request; otherwise the buffer stays as it is.
pub open spec fn take_step(o: Result<Option<(nat, RequestView)>, ParseError>, buf: Seq<u8>) -> (
    Result<Option<RequestView>, ParseError>,
    Seq<u8>,
) {
    match o {
        Ok(Some((n, v))) => (Ok(Some(RequestView { data: Some(buf.take(n as int)), ..v })), buf.skip(n as int)),
        Ok(None) => (Ok(None), buf),
        Err(e) => (Err(e), buf),
    }
}

/// Moves the head of a complete request, `n` bytes, from the front of `buf` into
/// the request; passes an incomplete or refused outcome on with `buf` untouched.
pub fn take_request(
    outcome: Result<Option<(usize, Request)>, ParseError>,
    buf: &mut Vec<u8>,
) -> (res: Result<Option<Request>, ParseError>)
    requires
        outcome matches Ok(Some((n, _))) ==> n <= old(buf)@.len(),
    ensures
        (decoded_view(res), final(buf)@) == take_step(outcome_view(outcome), old(buf)@),
        res matches Ok(Some(req)) ==> (req@.data matches Some(d) && d + final(buf)@ == old(buf)@),
{
    match outcome {
        Ok(Some((n, mut req))) => {
            let mut data = buf.split_off(n);
            std::mem::swap(buf, &mut data);
            req.data = Some(data);
            assert(data@ + buf@ =~= old(buf)@);
            Ok(Some(req))
        },
        Ok(None) => Ok(None),
        Err(e) => Err(e),
    }
}

/// Decodes one request from the front of `buf`, taking its head off the buffer.
pub fn decode(buf: &mut Vec<u8>) -> (res: Result<Option<Request>, ParseError>)
    ensures
        (decoded_view(res), final(buf)@) == decode_step(httparse_request(old(buf)@, MAX_HEADERS), old(buf)@),
        res matches Ok(Some(req)) ==> (req@.data matches Some(d) && d + final(buf)@ == old(buf)@),
        res matches Ok(Some(req)) ==> request_within(req@),
        httparse_request(old(buf)@, MAX_HEADERS) matches RawParseView::Complete(r) ==> (res matches Ok(Some(req))
            && req@.method == r.method->Some_0 && req@.path == r.path->Some_0
            && req@.version == r.version->Some_0 && req@.headers == r.headers),
{
    let raw = parse_with_httparse(buf.as_slice(), MAX_HEADERS);
    let ghost p = raw@;
    let outcome = decode_parsed(raw);
    let res = take_request(outcome, buf);
    proof {
        if let RawParseView::Complete(r) = p {
            let v = res->Ok_0->Some_0@;
            assert(v.headers == r.headers);
            assert(v.data == Some(old(buf)@.take(r.len as int)));
        }
    }
    res
}

/// Decoding a complete head hands back exactly what `httparse` read from the request
/// line and the headers (method, path, minor version, headers in order), keeps the
/// head's bytes in the request, and leaves what follows them in the buffer. Refused
/// or incomplete input is reported as such and consumes nothing.
pub proof fn lemma_decode_reports_parse(buf: Seq<u8>)
    ensures
        ({
            let (out, rest) = decode_step(httparse_request(buf, MAX_HEADERS), buf);
            match httparse_request(buf, MAX_HEADERS) {
                RawParseView::Complete(r) => out matches Ok(Some(v)) && v.method == r.method->Some_0
                    && v.path == r.path->Some_0 && v.version == r.version->Some_0 && v.headers
                    == r.headers && v.data == Some(buf.take(r.len as int)) && rest == buf.skip(
                    r.len as int,
                ),
                RawParseView::Partial => out == Ok::<Option<RequestView>, ParseError>(None) && rest
                    == buf,
                RawParseView::Invalid(c) => out == Err::<Option<RequestView>, ParseError>(
                    error_of_code(c),
                ) && rest == buf,
            }
        }),
{
}

impl Request {
    /// The request method, such as `GET`.
    pub fn method(&self) -> (m: &str)
        ensures
            m@ == self@.method,
    {
        self.method.as_str()
    }

    /// The request path, such as `/plaintext`.
    pub fn path(&self) -> (p: &str)
        ensures
            p@ == self@.path,
    {
        self.path.as_str()
    }

    /// The minor HTTP version: `1` for `HTTP/1.1`, `0` for `HTTP/1.0`.
    pub fn version(&self) -> (v: u8)
        ensures
            v == self@.version,
    {
        self.version
    }

    /// The headers, in the order in which they came.
    pub fn headers(&self) -> (h: RequestHeaders<'_>)
        ensures
            h.remaining() == self@.headers,
    {
        let h = RequestHeaders { req: self, pos: 0 };
        assert(h.remaining() =~= self@.headers);
        h
    }
}

/// A walk over the headers of a request.
pub struct RequestHeaders<'req> {
    req: &'req Request,
    pos: usize,
}

impl<'req> RequestHeaders<'req> {
    #[verifier::type_invariant]
    closed spec fn within_headers(&self) -> bool {
        self.pos <= self.req@.headers.len()
    }

    /// The headers not yet handed out, in order.
    pub closed spec fn remaining(&self) -> Seq<(Seq<char>, Seq<u8>)> {
        self.req@.headers.skip(self.pos as int)
    }

    /// Hands out the next header as its name and its value.
    pub fn next(&mut self) -> (item: Option<(&'req str, &'req [u8])>)
        ensures
            old(self).remaining().len() == 0 ==> item is None && final(self).remaining() == old(self).remaining(),
            old(self).remaining().len() > 0 ==> (item matches Some((n, v)) && (n@, v@) == old(
                self,
            ).remaining()[0] && final(self).remaining() == old(self).remaining().drop_first()),
    {
        proof {
            use_type_invariant(&*self);
        }
        if self.pos < self.req.headers.len() {
            let (name, value) = &self.req.headers[self.pos];
            let ghost before = self.remaining();
            assert(before[0] == (name@, value@));
            self.pos = self.pos + 1;
            assert(self.remaining() =~= before.drop_first());
            Some((name.as_str(), value.as_slice()))
        } else {
            None
        }
    }
}

/// One step of the pipeline: a request, a refused request, or the end of the stream.
pub enum Frame {
    Message(Request),
    Error(ParseError),
    Done,
}

/// Decodes requests from a byte buffer.
pub struct Parser;

impl Parser {
    /// Decodes the next request from `buf`: `None` while the head is incomplete.
    pub fn parse(&mut self, buf: &mut Vec<u8>) -> (res: Option<Frame>)
        ensures
            ({
                let (out, rest) = decode_step(httparse_request(old(buf)@, MAX_HEADERS), old(buf)@);
                &&& final(buf)@ == rest
                &&& match out {
                    Ok(Some(v)) => (res matches Some(Frame::Message(req)) && req@ == v),
                    Ok(None) => res is None,
                    Err(e) => res == Some(Frame::Error(e)),
                }
            }),
        res matches Some(Frame::Message(req)) ==> (req@.data matches Some(d) && d + final(buf)@ == old(buf)@),
        res matches Some(Frame::Message(req)) ==> request_within(req@),
    {
        match decode(buf) {
            Ok(Some(req)) => Some(Frame::Message(req)),
            Ok(None) => None,
            Err(e) => Some(Frame::Error(e)),
        }
    }

    /// The stream has ended: nothing more is decoded.
    pub fn done(&mut self, buf: &mut Vec<u8>) -> (res: Option<Frame>)
        ensures
            res matches Some(Frame::Done),
            final(buf)@ == old(buf)@,
    {
        Some(Frame::Done)
    }
}

} // verus!
