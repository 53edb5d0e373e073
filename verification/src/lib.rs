//! A local HTTP proxy front-end that forwards all traffic through an upstream
//! SOCKS5 proxy.
//!
//! The crate holds the decision logic of the proxy: how an inbound HTTP
//! request is classified and dispatched, how a CONNECT request becomes a raw
//! bidirectional byte tunnel over the SOCKS5-negotiated connection, and how
//! plain GET/POST requests are re-issued through the SOCKS5 proxy and their
//! response relayed back.  All I/O (the listening socket, the SOCKS5
//! handshake, the tunnel reads and writes) is performed by a thin driver
//! around this crate, which feeds plain values in and carries the decided
//! actions out.

pub mod dispatch;
pub mod forward;
pub mod http;
pub mod tunnel;

use vstd::prelude::*;

verus! {

/// The closed set of behaviours the proxy dispatches an inbound request to,
/// decided by the request method alone.
#[derive(Clone, Copy, Debug, PartialEq, Eq, Structural)]
pub enum MethodKind {
    /// `CONNECT`: upgrade the connection into a raw byte tunnel.
    Connect,
    /// `GET`: re-issue the request through the SOCKS5 proxy.
    Get,
    /// `POST`: re-issue the request through the SOCKS5 proxy.
    Post,
    /// Any other method: reject without touching the upstream.
    Other,
}

/// The handling class of a request method, decided by exact match on the
/// method name.
pub open spec fn method_kind_of(m: Seq<char>) -> MethodKind {
    if m == "CONNECT"@ {
        MethodKind::Connect
    } else if m == "GET"@ {
        MethodKind::Get
    } else if m == "POST"@ {
        MethodKind::Post
    } else {
        MethodKind::Other
    }
}

/// Classify an inbound request method.
pub fn classify_method(m: &String) -> (k: MethodKind)
    ensures
        k == method_kind_of(m@),
{
    let connect: String = "CONNECT".to_owned();
    let get: String = "GET".to_owned();
    let post: String = "POST".to_owned();
    if *m == connect {
        MethodKind::Connect
    } else if *m == get {
        MethodKind::Get
    } else if *m == post {
        MethodKind::Post
    } else {
        MethodKind::Other
    }
}

} // verus!
