//! The request forwarder: how the reply of the outbound leg of a GET/POST
//! request becomes the response sent to the original client.
//!
//! The outbound call itself is I/O and lives in the driver; this module
//! fixes what the client receives for every outcome of that call: the
//! upstream's status, headers and body copied exactly, or a 502 response
//! when the call failed.

use vstd::prelude::*;

verus! {

use crate::http::Header;
use crate::http::Response;
use crate::http::SpecHeader;
use crate::http::SpecResponse;
use crate::http::bad_gateway_response;
use crate::http::spec_bad_gateway;

/// The outcome of the one outbound HTTP call made for a forwarded request.
#[derive(Debug, PartialEq, Eq)]
pub enum UpstreamResult {
    /// The upstream's reply, as received through the SOCKS5 proxy.
    Reply { status: u16, headers: Vec<Header>, body: Vec<u8> },
    /// Building the client, sending the request, or reading the reply
    /// failed.
    Failed,
}

/// Mathematical model of an [`UpstreamResult`].
pub enum SpecUpstreamResult {
    Reply { status: u16, headers: Seq<SpecHeader>, body: Seq<u8> },
    Failed,
}

impl View for UpstreamResult {
    type V = SpecUpstreamResult;

    open spec fn view(&self) -> SpecUpstreamResult {
        match self {
            UpstreamResult::Reply { status, headers, body } => (SpecUpstreamResult::Reply {
                status: *status,
                headers: headers@.map_values(|h: Header| h@),
                body: body@,
            }),
            UpstreamResult::Failed => SpecUpstreamResult::Failed,
        }
    }
}

/// The response owed to the original client for each outcome of the
/// outbound call.
pub open spec fn spec_forward_response(u: SpecUpstreamResult) -> SpecResponse {
    match u {
        SpecUpstreamResult::Reply { status, headers, body } => (SpecResponse {
            status: status,
            headers: headers,
            body: body,
        }),
        SpecUpstreamResult::Failed => spec_bad_gateway(),
    }
}

/// Turn the outcome of the outbound call into the client's response.
pub fn forward_response(u: UpstreamResult) -> (r: Response)
    ensures
        r@ == spec_forward_response(u@),
{
    match u {
        UpstreamResult::Reply { status, headers, body } => Response { status, headers, body },
        UpstreamResult::Failed => bad_gateway_response(),
    }
}

/// A forwarded reply is copied exactly: whenever the outbound call
/// succeeds, the client's response carries the very status, headers and
/// body that the upstream returned — nothing is added, dropped or
/// reordered.
pub proof fn lemma_reply_copied_exactly(
    status: u16,
    headers: Seq<SpecHeader>,
    body: Seq<u8>,
)
    ensures
        spec_forward_response(SpecUpstreamResult::Reply { status, headers, body })
            == (SpecResponse { status, headers, body }),
{
}

/// The proxy address handed to the outbound HTTP client: the upstream
/// SOCKS5 endpoint, named with the `socks5` scheme.
pub open spec fn spec_socks_proxy_url(addr: Seq<char>) -> Seq<char> {
    "socks5://"@ + addr
}

/// Assemble the proxy URL for the outbound HTTP client from the upstream
/// SOCKS5 address.
pub fn socks_proxy_url(addr: &String) -> (url: String)
    ensures
        url@ == spec_socks_proxy_url(addr@),
{
    let mut url: String = "socks5://".to_owned();
    url.append(addr.as_str());
    url
}

} // verus!
