//! The request that comes in and the response that goes out.
use crate::status::StatusCode;
use vstd::prelude::*;
use vstd::string::*;

verus! {

/// The protocol version of a message.
#[derive(Clone, Copy, Debug, PartialEq, Eq, Structural)]
pub enum Version {
    /// HTTP/0.9
    Http09,
    /// HTTP/1.0
    Http10,
    /// HTTP/1.1
    Http11,
    /// HTTP/2
    Http2,
    /// HTTP/3
    Http3,
}

/// One header line: a name and the bytes of its value.
#[derive(Clone, Debug, PartialEq, Eq)]
pub struct Header {
    /// The header's name.
    pub name: String,
    /// The header's value.
    pub value: Vec<u8>,
}

impl View for Header {
    type V = (Seq<char>, Seq<u8>);

    open spec fn view(&self) -> (Seq<char>, Seq<u8>) {
        (self.name@, self.value@)
    }
}

/// What a list of headers holds.
pub open spec fn header_views(headers: Seq<Header>) -> Seq<(Seq<char>, Seq<u8>)> {
    Seq::new(headers.len(), |i: int| headers[i]@)
}

/// An inbound message.
#[derive(Clone, Debug, PartialEq, Eq)]
pub struct Request {
    /// The method, as it stands in the request line.
    pub method: String,
    /// The target, as it stands in the request line.
    pub uri: String,
    /// The protocol version.
    pub version: Version,
    /// The headers, in order.
    pub headers: Vec<Header>,
    /// The body.
    pub body: Vec<u8>,
}

/// What a request holds.
pub struct RequestView {
    pub method: Seq<char>,
    pub uri: Seq<char>,
    pub version: Version,
    pub headers: Seq<(Seq<char>, Seq<u8>)>,
    pub body: Seq<u8>,
}

impl View for Request {
    type V = RequestView;

    open spec fn view(&self) -> RequestView {
        RequestView {
            method: self.method@,
            uri: self.uri@,
            version: self.version,
            headers: header_views(self.headers@),
            body: self.body@,
        }
    }
}

/// An outbound message.
#[derive(Clone, Debug, PartialEq, Eq)]
pub struct Response {
    /// The status; 200 until something sets it.
    pub status: StatusCode,
    /// The protocol version.
    pub version: Version,
    /// The headers, in order.
    pub headers: Vec<Header>,
    /// The body written so far.
    pub body: Vec<u8>,
}

/// What a response holds.
pub struct ResponseView {
    pub status: int,
    pub version: Version,
    pub headers: Seq<(Seq<char>, Seq<u8>)>,
    pub body: Seq<u8>,
}

impl View for Response {
    type V = ResponseView;

    open spec fn view(&self) -> ResponseView {
        ResponseView {
            status: self.status@,
            version: self.version,
            headers: header_views(self.headers@),
            body: self.body@,
        }
    }
}

impl ResponseView {
    /// The response that nothing has touched: status 200, HTTP/1.1, no
    /// header, an empty body.
    pub open spec fn empty() -> ResponseView {
        ResponseView {
            status: 200,
            version: Version::Http11,
            headers: Seq::empty(),
            body: Seq::empty(),
        }
    }

    /// This response with `bytes` written after its body.
    pub open spec fn written(self, bytes: Seq<u8>) -> ResponseView {
        ResponseView { body: self.body + bytes, ..self }
    }

    /// This response with its status set to `status`.
    pub open spec fn with_status(self, status: int) -> ResponseView {
        ResponseView { status, ..self }
    }
}

impl Response {
    /// A response that nothing has touched.
    pub fn new() -> (r: Response)
        ensures
            r@ == ResponseView::empty(),
    {
        let r = Response {
            status: StatusCode::ok(),
            version: Version::Http11,
            headers: Vec::new(),
            body: Vec::new(),
        };
        assert(header_views(r.headers@) =~= Seq::empty());
        r
    }

    /// Writes the bytes of `data` after the body.
    pub fn write_str(&mut self, data: &str)
        ensures
            final(self)@ == old(self)@.written(data.spec_bytes()),
    {
        let bytes = data.as_bytes();
        let n: usize = bytes.len();
        let mut i: usize = 0;
        while i < n
            invariant
                i <= n,
                n == bytes@.len(),
                bytes@ == data.spec_bytes(),
                self.status == old(self).status,
                self.version == old(self).version,
                self.headers == old(self).headers,
                self.body@ == old(self).body@ + bytes@.subrange(0, i as int),
            decreases n - i,
        {
            self.body.push(bytes[i]);
            assert(bytes@.subrange(0, i + 1) =~= bytes@.subrange(0, i as int).push(
                bytes@[i as int],
            ));
            i = i + 1;
        }
        assert(bytes@.subrange(0, n as int) =~= bytes@);
    }

    /// Writes `bytes` after the body.
    pub fn write_buf(&mut self, bytes: Vec<u8>)
        ensures
            final(self)@ == old(self)@.written(bytes@),
    {
        let mut bytes = bytes;
        self.body.append(&mut bytes);
    }

    /// Hands out this response and leaves an untouched one in its place.
    pub fn take(&mut self) -> (taken: Response)
        ensures
            taken == *old(self),
            final(self)@ == ResponseView::empty(),
    {
        let mut taken = Response::new();
        std::mem::swap(self, &mut taken);
        taken
    }
}

impl Default for Response {
    fn default() -> (r: Response)
        ensures
            r@ == ResponseView::empty(),
    {
        Response::new()
    }
}

} // verus!
