//! End-to-end scenarios at the decision level: a request dispatched, the
//! tunnel or forwarded call played out, the client's view checked.

use socks_bridge::MethodKind;
use socks_bridge::dispatch::Directive;
use socks_bridge::dispatch::dispatch;
use socks_bridge::forward::UpstreamResult;
use socks_bridge::forward::forward_response;
use socks_bridge::http::Header;
use socks_bridge::http::Request;
use socks_bridge::tunnel::Direction;
use socks_bridge::tunnel::TunnelAction;
use socks_bridge::tunnel::TunnelEvent;
use socks_bridge::tunnel::tunnel_clean;
use socks_bridge::tunnel::tunnel_initial;
use socks_bridge::tunnel::tunnel_run;

#[test]
fn connect_scenario_tls_handshake_relayed_byte_for_byte() {
    let d = dispatch(Request {
        method: "CONNECT".to_owned(),
        authority: Some("example.com:443".to_owned()),
        host: None,
        path_and_query: None,
        body: Vec::new(),
    });
    let authority = match d {
        Directive::OpenTunnel { authority, response } => {
            assert_eq!(response.status, 200);
            assert!(response.body.is_empty());
            authority
        }
        other => panic!("expected a tunnel, got {:?}", other),
    };
    assert_eq!(authority, "example.com:443");

    let client_hello: Vec<u8> = vec![0x16, 0x03, 0x01, 0x02, 0x00, 0x01, 0x00, 0x01, 0xfc];
    let server_hello: Vec<u8> = vec![0x16, 0x03, 0x03, 0x00, 0x7a, 0x02, 0x00, 0x00, 0x76];
    let events = vec![
        TunnelEvent::UpstreamConnected,
        TunnelEvent::Data { dir: Direction::ClientToUpstream, bytes: client_hello.clone() },
        TunnelEvent::Data { dir: Direction::UpstreamToClient, bytes: server_hello.clone() },
        TunnelEvent::Eof { dir: Direction::ClientToUpstream },
        TunnelEvent::Eof { dir: Direction::UpstreamToClient },
    ];
    let (s, actions) = tunnel_run(tunnel_initial(), events);
    assert!(tunnel_clean(&s));
    assert_eq!(
        actions[1],
        TunnelAction::Write { dir: Direction::ClientToUpstream, bytes: client_hello }
    );
    assert_eq!(
        actions[2],
        TunnelAction::Write { dir: Direction::UpstreamToClient, bytes: server_hello }
    );
}

#[test]
fn get_scenario_upstream_reply_reaches_the_client_exactly() {
    let d = dispatch(Request {
        method: "GET".to_owned(),
        authority: None,
        host: Some("example.com".to_owned()),
        path_and_query: Some("/".to_owned()),
        body: Vec::new(),
    });
    let outbound = match d {
        Directive::Forward { outbound } => outbound,
        other => panic!("expected a forward, got {:?}", other),
    };
    assert_eq!(outbound.method, MethodKind::Get);
    assert_eq!(outbound.url, "http://example.com/");

    let upstream_headers = vec![Header {
        name: "content-type".to_owned(),
        value: b"text/html; charset=UTF-8".to_vec(),
    }];
    let upstream_body = b"<!doctype html><html>example</html>".to_vec();
    let r = forward_response(UpstreamResult::Reply {
        status: 200,
        headers: upstream_headers.clone(),
        body: upstream_body.clone(),
    });
    assert_eq!(r.status, 200);
    assert_eq!(r.headers, upstream_headers);
    assert_eq!(r.body, upstream_body);
}

#[test]
fn unreachable_upstream_still_acknowledges_then_goes_silent() {
    let d = dispatch(Request {
        method: "CONNECT".to_owned(),
        authority: Some("example.com:443".to_owned()),
        host: None,
        path_and_query: None,
        body: Vec::new(),
    });
    match d {
        Directive::OpenTunnel { response, .. } => assert_eq!(response.status, 200),
        other => panic!("expected a tunnel, got {:?}", other),
    }
    let events = vec![
        TunnelEvent::UpstreamConnectFailed,
        TunnelEvent::Data { dir: Direction::ClientToUpstream, bytes: vec![1, 2, 3] },
    ];
    let (s, actions) = tunnel_run(tunnel_initial(), events);
    assert!(socks_bridge::tunnel::tunnel_finished(&s));
    assert_eq!(actions[0], TunnelAction::CloseBoth);
    assert_eq!(actions[1], TunnelAction::Continue);
}
