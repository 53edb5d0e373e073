//! The dispatcher: the single decision point that routes an inbound request
//! to one of the three behaviours the proxy knows.
//!
//! The decision depends on the request method alone: `CONNECT` opens a raw
//! tunnel, `GET` and `POST` are re-issued through the SOCKS5 proxy, and any
//! other method is rejected without ever touching the upstream.

use vstd::prelude::*;

verus! {

use crate::MethodKind;
use crate::classify_method;
use crate::method_kind_of;
use crate::http::Request;
use crate::http::Response;
use crate::http::SpecRequest;
use crate::http::SpecResponse;
use crate::http::bad_request_response;
use crate::http::connect_ack_response;
use crate::http::not_allowed_response;
use crate::http::spec_bad_request;
use crate::http::spec_connect_ack;
use crate::http::spec_not_allowed;

/// An outbound HTTP request, to be issued through the SOCKS5 proxy on
/// behalf of a forwarded GET/POST request.
#[derive(Debug, PartialEq, Eq)]
pub struct OutboundRequest {
    /// The method of the original request, preserved on the outbound leg.
    pub method: MethodKind,
    /// The target URL, assembled from the original request's host and path.
    pub url: String,
    /// The original request's body, passed through unchanged.
    pub body: Vec<u8>,
}

/// Mathematical model of an [`OutboundRequest`].
pub struct SpecOutboundRequest {
    pub method: MethodKind,
    pub url: Seq<char>,
    pub body: Seq<u8>,
}

impl View for OutboundRequest {
    type V = SpecOutboundRequest;

    open spec fn view(&self) -> SpecOutboundRequest {
        SpecOutboundRequest { method: self.method, url: self.url@, body: self.body@ }
    }
}

/// What the proxy does with one inbound request.
///
/// Only `OpenTunnel` and `Forward` ever open an upstream connection; for
/// `Respond` the driver writes the response and is done.
#[derive(Debug, PartialEq, Eq)]
pub enum Directive {
    /// Answer `response` (the 200 acknowledgment) at once, then upgrade the
    /// connection and tunnel raw bytes to `authority` through the SOCKS5
    /// proxy.  The acknowledgment does not wait for the tunnel's outcome.
    OpenTunnel { authority: String, response: Response },
    /// Issue `outbound` through the SOCKS5 proxy and relay its reply.
    Forward { outbound: OutboundRequest },
    /// Answer `response` directly; no upstream connection is opened.
    Respond { response: Response },
}

/// Mathematical model of a [`Directive`].
pub enum SpecDirective {
    OpenTunnel { authority: Seq<char>, response: SpecResponse },
    Forward { outbound: SpecOutboundRequest },
    Respond { response: SpecResponse },
}

impl View for Directive {
    type V = SpecDirective;

    open spec fn view(&self) -> SpecDirective {
        match self {
            Directive::OpenTunnel { authority, response } => (SpecDirective::OpenTunnel {
                authority: authority@,
                response: response@,
            }),
            Directive::Forward { outbound } => (SpecDirective::Forward { outbound: outbound@ }),
            Directive::Respond { response } => (SpecDirective::Respond { response: response@ }),
        }
    }
}

/// The URL of the outbound leg of a forwarded request: the scheme is always
/// plain `http`, the host is the original request's host, and the path and
/// query are kept verbatim (an absent path contributes nothing).
pub open spec fn spec_forward_url(host: Seq<char>, path_and_query: Option<Seq<char>>) -> Seq<char> {
    "http://"@ + host + (match path_and_query {
        Some(p) => p,
        None => Seq::empty(),
    })
}

/// The dispatch decision for a request, as a function of its model:
///
/// - `CONNECT` with an authority: open a tunnel to that authority and
///   acknowledge with 200 at once.
/// - `CONNECT` without an authority: reject with 400; no upstream contact.
/// - `GET`/`POST` with a host: forward, preserving the method and the body
///   and aiming at [`spec_forward_url`].
/// - `GET`/`POST` without a host: reject with 400; no upstream contact.
/// - any other method: the fixed "Method Not Allowed" rejection; no
///   upstream contact.
pub open spec fn spec_dispatch(r: SpecRequest) -> SpecDirective {
    match method_kind_of(r.method) {
        MethodKind::Connect => match r.authority {
            Some(a) => SpecDirective::OpenTunnel { authority: a, response: spec_connect_ack() },
            None => SpecDirective::Respond { response: spec_bad_request() },
        },
        MethodKind::Get => spec_dispatch_forward(r, MethodKind::Get),
        MethodKind::Post => spec_dispatch_forward(r, MethodKind::Post),
        MethodKind::Other => SpecDirective::Respond { response: spec_not_allowed() },
    }
}

/// The forwarding half of [`spec_dispatch`]: the decision for a GET/POST
/// request of kind `kind`.
pub open spec fn spec_dispatch_forward(r: SpecRequest, kind: MethodKind) -> SpecDirective {
    match r.host {
        Some(h) => SpecDirective::Forward {
            outbound: SpecOutboundRequest {
                method: kind,
                url: spec_forward_url(h, r.path_and_query),
                body: r.body,
            },
        },
        None => SpecDirective::Respond { response: spec_bad_request() },
    }
}

/// Assemble the outbound URL for a forwarded request.
pub fn build_forward_url(host: &String, path_and_query: &Option<String>) -> (url: String)
    ensures
        url@ == spec_forward_url(host@, crate::http::opt_str_view(*path_and_query)),
{
    let mut url: String = "http://".to_owned();
    url.append(host.as_str());
    match path_and_query {
        Some(p) => {
            url.append(p.as_str());
        },
        None => {
            proof {
                assert(url@ + Seq::<char>::empty() =~= url@);
            }
        },
    }
    url
}

/// Decide how to handle one inbound request.
///
/// The result is exactly [`spec_dispatch`] of the request: the one decision
/// point of the proxy, covering the tunnel upgrade, the forwarded call, and
/// every rejection.
pub fn dispatch(req: Request) -> (d: Directive)
    ensures
        d@ == spec_dispatch(req@),
{
    let Request { method, authority, host, path_and_query, body } = req;
    let kind = classify_method(&method);
    match kind {
        MethodKind::Connect => match authority {
            Some(a) => Directive::OpenTunnel {
                authority: a,
                response: connect_ack_response(),
            },
            None => Directive::Respond { response: bad_request_response() },
        },
        MethodKind::Get | MethodKind::Post => match host {
            Some(h) => {
                let url = build_forward_url(&h, &path_and_query);
                Directive::Forward { outbound: OutboundRequest { method: kind, url, body } }
            },
            None => Directive::Respond { response: bad_request_response() },
        },
        MethodKind::Other => Directive::Respond { response: not_allowed_response() },
    }
}

/// The optimistic accept: every CONNECT request that names an authority is
/// answered with the 200 acknowledgment and an empty body at once — the
/// decision does not look at anything but the request, so the
/// acknowledgment is owed whatever later becomes of the SOCKS5 negotiation
/// or the tunnel.
pub proof fn lemma_connect_acknowledged_up_front(r: SpecRequest)
    requires
        method_kind_of(r.method) is Connect,
        r.authority is Some,
    ensures
        r.authority matches Some(a) ==> spec_dispatch(r) == (SpecDirective::OpenTunnel {
            authority: a,
            response: spec_connect_ack(),
        }),
{
}

/// A forwarded request is preserved: for every GET or POST request whose
/// URI names a host, the outbound leg keeps the original method and the
/// original body byte for byte, and aims at the URL assembled from the
/// original host and path.
pub proof fn lemma_forwarded_request_preserved(r: SpecRequest)
    requires
        method_kind_of(r.method) is Get || method_kind_of(r.method) is Post,
        r.host is Some,
    ensures
        r.host matches Some(h) ==> spec_dispatch(r) == (SpecDirective::Forward {
            outbound: SpecOutboundRequest {
                method: method_kind_of(r.method),
                url: spec_forward_url(h, r.path_and_query),
                body: r.body,
            },
        }),
{
}

/// An unsupported method never reaches the upstream: for every request
/// whose method is neither `CONNECT`, `GET` nor `POST`, the dispatch
/// decision is to respond with the fixed "Method Not Allowed" rejection,
/// and in particular it is never a tunnel nor a forwarded call.
pub proof fn lemma_unsupported_method_stays_local(r: SpecRequest)
    requires
        method_kind_of(r.method) is Other,
    ensures
        spec_dispatch(r) == (SpecDirective::Respond { response: spec_not_allowed() }),
{
}

} // verus!
