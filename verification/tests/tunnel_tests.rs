use socks_bridge::tunnel::Direction;
use socks_bridge::tunnel::TunnelAction;
use socks_bridge::tunnel::TunnelEvent;
use socks_bridge::tunnel::TunnelState;
use socks_bridge::tunnel::tunnel_clean;
use socks_bridge::tunnel::tunnel_finished;
use socks_bridge::tunnel::tunnel_initial;
use socks_bridge::tunnel::tunnel_run;
use socks_bridge::tunnel::tunnel_step;

fn relaying(state: TunnelState) -> TunnelState {
    let (s, a) = tunnel_step(state, TunnelEvent::UpstreamConnected);
    assert_eq!(a, TunnelAction::Continue);
    s
}

/// The bytes the actions write to the sink of `d`, concatenated in order.
fn written(actions: &[TunnelAction], d: Direction) -> Vec<u8> {
    let mut out = Vec::new();
    for a in actions {
        if let TunnelAction::Write { dir, bytes } = a {
            if *dir == d {
                out.extend_from_slice(bytes);
            }
        }
    }
    out
}

#[test]
fn tunnel_starts_negotiating_and_unfinished() {
    let s = tunnel_initial();
    assert_eq!(s, TunnelState::Negotiating);
    assert!(!tunnel_finished(&s));
}

#[test]
fn data_is_relayed_byte_for_byte_both_directions() {
    let s = relaying(tunnel_initial());
    let tls_hello = vec![0x16u8, 0x03, 0x01, 0x00, 0xff, 0x00, 0x80, 0x7f];
    let (s, a) = tunnel_step(s, TunnelEvent::Data {
        dir: Direction::ClientToUpstream,
        bytes: tls_hello.clone(),
    });
    assert_eq!(
        a,
        TunnelAction::Write { dir: Direction::ClientToUpstream, bytes: tls_hello }
    );
    let reply = vec![0x16u8, 0x03, 0x03, 0x00, 0x00, 0x01];
    let (_, a) = tunnel_step(s, TunnelEvent::Data {
        dir: Direction::UpstreamToClient,
        bytes: reply.clone(),
    });
    assert_eq!(
        a,
        TunnelAction::Write { dir: Direction::UpstreamToClient, bytes: reply }
    );
}

#[test]
fn peer_close_shuts_the_sink_it_fed() {
    let s = relaying(tunnel_initial());
    let (s, a) = tunnel_step(s, TunnelEvent::Eof { dir: Direction::ClientToUpstream });
    assert_eq!(a, TunnelAction::ShutdownWrite { dir: Direction::ClientToUpstream });
    assert!(!tunnel_finished(&s));
    let (_, a) = tunnel_step(s, TunnelEvent::Data {
        dir: Direction::ClientToUpstream,
        bytes: vec![1, 2, 3],
    });
    assert_eq!(a, TunnelAction::Continue);
}

#[test]
fn other_direction_still_relays_after_one_closes() {
    let s = relaying(tunnel_initial());
    let (s, _) = tunnel_step(s, TunnelEvent::Eof { dir: Direction::ClientToUpstream });
    let (_, a) = tunnel_step(s, TunnelEvent::Data {
        dir: Direction::UpstreamToClient,
        bytes: vec![9, 8, 7],
    });
    assert_eq!(
        a,
        TunnelAction::Write { dir: Direction::UpstreamToClient, bytes: vec![9, 8, 7] }
    );
}

#[test]
fn tunnel_finishes_only_when_both_directions_do() {
    let s = relaying(tunnel_initial());
    let (s, _) = tunnel_step(s, TunnelEvent::Eof { dir: Direction::UpstreamToClient });
    assert!(!tunnel_finished(&s));
    let (s, _) = tunnel_step(s, TunnelEvent::Eof { dir: Direction::ClientToUpstream });
    assert!(tunnel_finished(&s));
    assert!(tunnel_clean(&s));
}

#[test]
fn an_errored_direction_makes_the_close_unclean() {
    let s = relaying(tunnel_initial());
    let (s, a) = tunnel_step(s, TunnelEvent::StreamError { dir: Direction::UpstreamToClient });
    assert_eq!(a, TunnelAction::ShutdownWrite { dir: Direction::UpstreamToClient });
    let (s, _) = tunnel_step(s, TunnelEvent::Eof { dir: Direction::ClientToUpstream });
    assert!(tunnel_finished(&s));
    assert!(!tunnel_clean(&s));
}

#[test]
fn failed_negotiation_closes_everything_without_data() {
    let s = tunnel_initial();
    let (s, a) = tunnel_step(s, TunnelEvent::UpstreamConnectFailed);
    assert_eq!(a, TunnelAction::CloseBoth);
    assert_eq!(s, TunnelState::Aborted);
    assert!(tunnel_finished(&s));
    let (s, a) = tunnel_step(s, TunnelEvent::Data {
        dir: Direction::ClientToUpstream,
        bytes: vec![1, 2, 3],
    });
    assert_eq!(a, TunnelAction::Continue);
    assert_eq!(s, TunnelState::Aborted);
}

#[test]
fn run_relays_a_whole_conversation_in_order() {
    let events = vec![
        TunnelEvent::UpstreamConnected,
        TunnelEvent::Data { dir: Direction::ClientToUpstream, bytes: vec![1, 2] },
        TunnelEvent::Data { dir: Direction::UpstreamToClient, bytes: vec![250, 251] },
        TunnelEvent::Data { dir: Direction::ClientToUpstream, bytes: vec![3] },
        TunnelEvent::Eof { dir: Direction::ClientToUpstream },
        TunnelEvent::Data { dir: Direction::UpstreamToClient, bytes: vec![252] },
        TunnelEvent::Eof { dir: Direction::UpstreamToClient },
    ];
    let (s, actions) = tunnel_run(tunnel_initial(), events);
    assert!(tunnel_finished(&s));
    assert!(tunnel_clean(&s));
    assert_eq!(written(&actions, Direction::ClientToUpstream), vec![1, 2, 3]);
    assert_eq!(written(&actions, Direction::UpstreamToClient), vec![250, 251, 252]);
}

#[test]
fn two_tunnels_never_mix_their_bytes() {
    let events_a = vec![
        TunnelEvent::UpstreamConnected,
        TunnelEvent::Data { dir: Direction::ClientToUpstream, bytes: b"tunnel A secret".to_vec() },
        TunnelEvent::Eof { dir: Direction::ClientToUpstream },
    ];
    let events_b = vec![
        TunnelEvent::UpstreamConnected,
        TunnelEvent::Data { dir: Direction::ClientToUpstream, bytes: b"tunnel B payload".to_vec() },
        TunnelEvent::Eof { dir: Direction::ClientToUpstream },
    ];
    let (_, actions_a) = tunnel_run(tunnel_initial(), events_a);
    let (_, actions_b) = tunnel_run(tunnel_initial(), events_b);
    assert_eq!(written(&actions_a, Direction::ClientToUpstream), b"tunnel A secret".to_vec());
    assert_eq!(written(&actions_b, Direction::ClientToUpstream), b"tunnel B payload".to_vec());
    assert_eq!(written(&actions_a, Direction::UpstreamToClient), Vec::<u8>::new());
    assert_eq!(written(&actions_b, Direction::UpstreamToClient), Vec::<u8>::new());
}

#[test]
fn events_before_negotiation_change_nothing() {
    let s = tunnel_initial();
    let (s, a) = tunnel_step(s, TunnelEvent::Data {
        dir: Direction::UpstreamToClient,
        bytes: vec![5],
    });
    assert_eq!(a, TunnelAction::Continue);
    assert_eq!(s, TunnelState::Negotiating);
}
