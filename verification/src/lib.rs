//! A small HTTP/1.1 server protocol: requests are decoded from the front of a
//! byte buffer and responses are encoded at the end of one.

pub mod date;
pub mod request;
pub mod response;
pub mod ssl;

pub use request::Request;
pub use response::Response;

use vstd::prelude::*;

use crate::date::{rfc822_utc, DATE_SECONDS_MAX, DATE_SECONDS_MIN};
use crate::request::{decode_step, decoded_view, httparse_request, request_within, ParseError, MAX_HEADERS};
use crate::response::response_bytes;

verus! {

/// `std::io::Error`, carried through as the error of a service's response.
#[verifier::external_type_specification]
#[verifier::external_body]
pub struct ExIoError(std::io::Error);

/// The HTTP protocol, to be bound to a transport.
pub struct Http;

/// Turns bytes into requests and responses into bytes.
pub struct HttpCodec;

impl HttpCodec {
    /// Decodes one request from the front of `buf`.
    pub fn decode(&mut self, buf: &mut Vec<u8>) -> (res: Result<Option<Request>, ParseError>)
        ensures
            (decoded_view(res), final(buf)@) == decode_step(httparse_request(old(buf)@, MAX_HEADERS), old(buf)@),
            res matches Ok(Some(req)) ==> (req@.data matches Some(d) && d + final(buf)@ == old(buf)@),
            res matches Ok(Some(req)) ==> request_within(req@),
    {
        request::decode(buf)
    }

    /// Encodes the response of a service at the end of `buf`. Services are not
    /// expected to fail: an error response is outside what this codec handles.
    pub fn encode(&mut self, msg: std::io::Result<Response>, buf: &mut Vec<u8>) -> (res: std::io::Result<()>)
        requires
            msg is Ok,
        ensures
            res is Ok,
            exists|sec: i64, nsec: i32|
                DATE_SECONDS_MIN <= sec <= DATE_SECONDS_MAX && 0 <= nsec < 1_000_000_000
                    && final(buf)@ == old(buf)@ + response_bytes(msg->Ok_0@, #[trigger] rfc822_utc(sec, nsec)),
    {
        match msg {
            Ok(m) => {
                response::encode(m, buf);
                Ok(())
            },
            Err(e) => Err(e),
        }
    }
}

} // verus!
