# tokio_minihttp

A minimal HTTP/1.1 server protocol, verified with Verus.

- `src/request.rs`: decodes the head of a request from the front of a byte
  buffer (through `httparse`), takes those bytes off the buffer, and exposes
  method, path, version and headers.
- `src/response.rs`: builds a response and encodes it as an HTTP/1.1 message at
  the end of a byte buffer; the `Content-Length` line is the body's byte length.
- `src/date.rs`: the `Date:` header, rendered through the `time` crate.
- `src/lib.rs`: the codec that ties both directions together.
- `src/ssl.rs`: a stream that may be upgraded to TLS.
- `app/`: the tokio-core / tokio-proto bindings and the stream I/O.
