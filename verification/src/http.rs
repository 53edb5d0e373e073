//! Plain-value models of the HTTP messages the proxy reads and writes.
//!
//! The driver around the library parses the wire format; the library works
//! on these types, which hold exactly the parts of a message that the
//! proxy's decisions depend on.

use vstd::prelude::*;

verus! {

use vstd::string::StringSliceAdditionalSpecFns;

/// One HTTP header: its name and its raw value bytes.
#[derive(Debug, Clone, PartialEq, Eq)]
pub struct Header {
    pub name: String,
    pub value: Vec<u8>,
}

/// Mathematical model of a [`Header`].
pub struct SpecHeader {
    pub name: Seq<char>,
    pub value: Seq<u8>,
}

impl View for Header {
    type V = SpecHeader;

    open spec fn view(&self) -> SpecHeader {
        SpecHeader { name: self.name@, value: self.value@ }
    }
}

/// An inbound HTTP request, reduced to the parts the proxy reads.
#[derive(Debug)]
pub struct Request {
    /// The request method name, exactly as on the request line.
    pub method: String,
    /// The authority (`host:port`) of the request target, when present.
    pub authority: Option<String>,
    /// The host of the request URI, when present.
    pub host: Option<String>,
    /// The path and query of the request URI, when present.
    pub path_and_query: Option<String>,
    /// The full request body.
    pub body: Vec<u8>,
}

/// Mathematical model of a [`Request`].
pub struct SpecRequest {
    pub method: Seq<char>,
    pub authority: Option<Seq<char>>,
    pub host: Option<Seq<char>>,
    pub path_and_query: Option<Seq<char>>,
    pub body: Seq<u8>,
}

/// The model of an optional string: its character sequence, when present.
pub open spec fn opt_str_view(o: Option<String>) -> Option<Seq<char>> {
    match o {
        Some(s) => Some(s@),
        None => None,
    }
}

impl View for Request {
    type V = SpecRequest;

    open spec fn view(&self) -> SpecRequest {
        SpecRequest {
            method: self.method@,
            authority: opt_str_view(self.authority),
            host: opt_str_view(self.host),
            path_and_query: opt_str_view(self.path_and_query),
            body: self.body@,
        }
    }
}

/// An HTTP response handed back to the client.
#[derive(Debug, PartialEq, Eq)]
pub struct Response {
    pub status: u16,
    pub headers: Vec<Header>,
    pub body: Vec<u8>,
}

/// Mathematical model of a [`Response`].
pub struct SpecResponse {
    pub status: u16,
    pub headers: Seq<SpecHeader>,
    pub body: Seq<u8>,
}

impl View for Response {
    type V = SpecResponse;

    open spec fn view(&self) -> SpecResponse {
        SpecResponse {
            status: self.status,
            headers: self.headers@.map_values(|h: Header| h@),
            body: self.body@,
        }
    }
}

/// The immediate acknowledgment for a CONNECT request: status 200 with an
/// empty body, sent before the SOCKS5 negotiation is even attempted
/// (optimistic accept).
pub open spec fn spec_connect_ack() -> SpecResponse {
    SpecResponse { status: 200, headers: Seq::empty(), body: Seq::empty() }
}

/// The body of the fixed response for an unsupported method.
pub open spec fn spec_not_allowed_body() -> Seq<u8> {
    "Method Not Allowed".spec_bytes()
}

/// The fixed rejection for an unsupported method.  The conventional 405
/// status is set beside the fixed body; no upstream connection is attempted
/// for such a request.
pub open spec fn spec_not_allowed() -> SpecResponse {
    SpecResponse { status: 405, headers: Seq::empty(), body: spec_not_allowed_body() }
}

/// The response for a malformed request: a CONNECT without an authority, or
/// a GET/POST whose URI names no host.
pub open spec fn spec_bad_request() -> SpecResponse {
    SpecResponse { status: 400, headers: Seq::empty(), body: "Bad Request".spec_bytes() }
}

/// The response for a failed outbound call on behalf of a GET/POST request.
pub open spec fn spec_bad_gateway() -> SpecResponse {
    SpecResponse { status: 502, headers: Seq::empty(), body: "Bad Gateway".spec_bytes() }
}

/// Build the CONNECT acknowledgment.
pub fn connect_ack_response() -> (r: Response)
    ensures
        r@ == spec_connect_ack(),
{
    let r = Response { status: 200, headers: Vec::new(), body: Vec::new() };
    proof {
        assert(r@.headers =~= spec_connect_ack().headers);
        assert(r@.body =~= spec_connect_ack().body);
    }
    r
}

/// Build the fixed rejection for an unsupported method.
pub fn not_allowed_response() -> (r: Response)
    ensures
        r@ == spec_not_allowed(),
{
    let body_text: &str = "Method Not Allowed";
    let bytes: &[u8] = body_text.as_bytes();
    let mut body: Vec<u8> = Vec::new();
    copy_bytes_into(&mut body, bytes);
    let r = Response { status: 405, headers: Vec::new(), body };
    proof {
        assert(r@.headers =~= spec_not_allowed().headers);
        assert(r@.body =~= spec_not_allowed().body);
    }
    r
}

/// Build the response for a malformed request.
pub fn bad_request_response() -> (r: Response)
    ensures
        r@ == spec_bad_request(),
{
    let body_text: &str = "Bad Request";
    let bytes: &[u8] = body_text.as_bytes();
    let mut body: Vec<u8> = Vec::new();
    copy_bytes_into(&mut body, bytes);
    let r = Response { status: 400, headers: Vec::new(), body };
    proof {
        assert(r@.headers =~= spec_bad_request().headers);
        assert(r@.body =~= spec_bad_request().body);
    }
    r
}

/// Build the response for a failed outbound call.
pub fn bad_gateway_response() -> (r: Response)
    ensures
        r@ == spec_bad_gateway(),
{
    let body_text: &str = "Bad Gateway";
    let bytes: &[u8] = body_text.as_bytes();
    let mut body: Vec<u8> = Vec::new();
    copy_bytes_into(&mut body, bytes);
    let r = Response { status: 502, headers: Vec::new(), body };
    proof {
        assert(r@.headers =~= spec_bad_gateway().headers);
        assert(r@.body =~= spec_bad_gateway().body);
    }
    r
}

/// Append every byte of `src`, in order, to the end of `dst`.
pub fn copy_bytes_into(dst: &mut Vec<u8>, src: &[u8])
    ensures
        final(dst)@ == old(dst)@ + src@,
{
    let mut i: usize = 0;
    while i < src.len()
        invariant
            i <= src@.len(),
            dst@ == old(dst)@ + src@.take(i as int),
        decreases src@.len() - i,
    {
        let b: u8 = src[i];
        dst.push(b);
        proof {
            assert(dst@ =~= old(dst)@ + src@.take(i as int + 1));
        }
        i = i + 1;
    }
    proof {
        assert(src@.take(src@.len() as int) =~= src@);
    }
}

} // verus!
