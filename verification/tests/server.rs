use crab_tunnel::protocol::{decode, encode};
use crab_tunnel::server::Outgoing;
use crab_tunnel::{Duration, HolePunchError, Message, RendezvousServer, SocketAddr};

fn at(port: u16) -> SocketAddr {
    SocketAddr::V4 { octets: [127, 0, 0, 1], port }
}

fn send(server: &mut RendezvousServer, from: SocketAddr, msg: Message, secs: u64) -> Vec<Outgoing> {
    server.handle_message(from, msg, Duration::from_secs(secs))
}

fn register(server: &mut RendezvousServer, from: SocketAddr, id: &str, secs: u64) -> Message {
    let mut replies = send(server, from, Message::Register { peer_id: id.into() }, secs);
    assert_eq!(replies.len(), 1);
    let reply = replies.remove(0);
    assert_eq!(reply.to, from);
    reply.message
}

fn list(server: &mut RendezvousServer) -> Vec<String> {
    let mut replies = send(server, at(9), Message::ListPeers, 0);
    assert_eq!(replies.len(), 1);
    let reply = replies.remove(0);
    assert_eq!(reply.to, at(9));
    match reply.message {
        Message::PeerList { peers } => peers,
        other => panic!("expected PeerList, got {other:?}"),
    }
}

fn connect(target: &str, requester: &str) -> Message {
    Message::ConnectRequest { target_peer_id: target.into(), requester_peer_id: requester.into() }
}

#[test]
fn test_register_peer() {
    let mut server = RendezvousServer::new();
    let resp = register(&mut server, at(1000), "alice", 0);
    assert!(
        matches!(resp, Message::RegisterAck { .. }),
        "expected RegisterAck, got {resp:?}"
    );
}

#[test]
fn test_register_returns_public_addr() {
    let mut server = RendezvousServer::new();
    match register(&mut server, at(1000), "alice", 0) {
        Message::RegisterAck { public_addr } => {
            assert!(public_addr.port() > 0, "expected valid port");
            assert_eq!(public_addr, at(1000));
        }
        other => panic!("expected RegisterAck, got {other:?}"),
    }
}

#[test]
fn test_connect_known_peer() {
    let mut server = RendezvousServer::new();
    register(&mut server, at(1000), "alice", 0);
    register(&mut server, at(2000), "bob", 0);

    let replies = send(&mut server, at(3000), connect("alice", "bob"), 1);
    let resp = &replies[1].message;
    assert!(
        matches!(resp, Message::ConnectResponse { .. }),
        "expected ConnectResponse, got {resp:?}"
    );
    assert_eq!(
        replies,
        vec![
            Outgoing {
                to: at(1000),
                message: Message::PunchRequest {
                    from_peer_id: "bob".into(),
                    from_addr: at(3000),
                },
            },
            Outgoing {
                to: at(3000),
                message: Message::ConnectResponse {
                    peer_addr: at(1000),
                    peer_id: "alice".into(),
                },
            },
        ],
    );
}

#[test]
fn test_connect_unknown_peer() {
    let mut server = RendezvousServer::new();
    register(&mut server, at(1000), "alice", 0);

    let replies = send(&mut server, at(1000), connect("nonexistent", "alice"), 1);
    let resp = &replies[0].message;
    assert!(matches!(resp, Message::Error { .. }), "expected Error, got {resp:?}");
    assert_eq!(
        replies,
        vec![Outgoing {
            to: at(1000),
            message: Message::Error { message: "peer 'nonexistent' not found".into() },
        }],
    );
}

#[test]
fn test_list_peers() {
    let mut server = RendezvousServer::new();
    assert!(list(&mut server).is_empty());
    register(&mut server, at(1000), "alice", 0);
    register(&mut server, at(2000), "bob", 0);

    let peers = list(&mut server);
    assert_eq!(peers.len(), 2);
    assert!(peers.contains(&"alice".to_string()));
    assert!(peers.contains(&"bob".to_string()));
}

#[test]
fn test_duplicate_register_updates() {
    let mut server = RendezvousServer::new();
    register(&mut server, at(1000), "alice", 0);
    register(&mut server, at(1000), "alice", 1);

    let peers = list(&mut server);
    assert_eq!(peers.len(), 1, "should still be one peer");
    assert_eq!(peers[0], "alice");
}

#[test]
fn a_registration_from_elsewhere_replaces_the_address() {
    let mut server = RendezvousServer::new();
    register(&mut server, at(1000), "alice", 0);
    register(&mut server, at(1001), "alice", 1);
    assert_eq!(list(&mut server), vec!["alice".to_string()]);
    let replies = send(&mut server, at(2000), connect("alice", "bob"), 2);
    assert_eq!(replies[0].to, at(1001));
}

#[test]
fn a_connect_request_rests_on_the_target_alone() {
    let mut one = RendezvousServer::new();
    register(&mut one, at(1000), "alice", 0);
    let mut other = RendezvousServer::new();
    register(&mut other, at(3000), "bob", 5);
    register(&mut other, at(1000), "alice", 9);
    register(&mut other, at(4000), "carol", 9);
    assert_eq!(
        send(&mut one, at(2000), connect("alice", "bob"), 10),
        send(&mut other, at(2000), connect("alice", "bob"), 10),
    );
    assert_eq!(
        send(&mut one, at(2000), connect("dave", "bob"), 10),
        send(&mut other, at(2000), connect("dave", "bob"), 10),
    );
    assert_eq!(
        one.handle_connect_request(at(2000), "alice", "bob"),
        other.handle_connect_request(at(2000), "alice", "bob"),
    );
    assert_eq!(list(&mut other).len(), 3);
}

#[test]
fn test_heartbeat_does_not_crash() {
    let mut server = RendezvousServer::new();
    assert!(send(&mut server, at(1000), Message::Heartbeat, 0).is_empty());
    assert!(list(&mut server).is_empty());
}

#[test]
fn test_punch_request_sent_to_target() {
    let mut server = RendezvousServer::new();
    let register = encode(&Message::Register { peer_id: "alice".into() }).unwrap();
    let sent = server.handle_datagram(at(1000), &register, Duration::from_secs(0)).unwrap();
    assert_eq!(sent.len(), 1);

    let request = encode(&connect("alice", "bob")).unwrap();
    let sent = server.handle_datagram(at(2000), &request, Duration::from_secs(0)).unwrap();
    assert_eq!(sent.len(), 2);
    assert_eq!(sent[0].to, at(1000));
    assert_eq!(sent[1].to, at(2000));
    match decode(&sent[0].bytes).unwrap() {
        Message::PunchRequest { from_peer_id, from_addr } => {
            assert_eq!(from_peer_id, "bob");
            assert_eq!(from_addr, at(2000), "PunchRequest from_addr should match Bob's socket");
        }
        other => panic!("expected PunchRequest, got {other:?}"),
    }
}

// -- Relay -----------------------------------------------------------------------

#[test]
fn relayed_data_goes_to_its_target_unchanged() {
    let mut server = RendezvousServer::new();
    register(&mut server, at(1000), "alice", 0);
    let data = Message::RelayData { target_peer_id: "alice".into(), data: vec![0, 1, 255] };
    assert_eq!(
        send(&mut server, at(2000), data.clone(), 1),
        vec![Outgoing { to: at(1000), message: data }],
    );
}

#[test]
fn data_for_an_unknown_target_is_dropped() {
    let mut server = RendezvousServer::new();
    register(&mut server, at(1000), "alice", 0);
    let data = Message::RelayData { target_peer_id: "bob".into(), data: vec![0, 1, 255] };
    assert!(send(&mut server, at(1000), data, 1).is_empty());
}

// -- Messages that the server does not expect ------------------------------------------

#[test]
fn unexpected_messages_are_refused() {
    let mut server = RendezvousServer::new();
    for msg in [
        Message::RegisterAck { public_addr: at(1) },
        Message::ConnectResponse { peer_addr: at(1), peer_id: "x".into() },
        Message::PunchRequest { from_peer_id: "x".into(), from_addr: at(1) },
        Message::PeerList { peers: vec![] },
        Message::Error { message: "x".into() },
    ] {
        assert_eq!(
            send(&mut server, at(1000), msg, 0),
            vec![Outgoing {
                to: at(1000),
                message: Message::Error { message: "unexpected message type".into() },
            }],
        );
    }
    assert!(list(&mut server).is_empty());
}

#[test]
fn a_punch_packet_gets_no_answer() {
    let mut server = RendezvousServer::new();
    assert!(send(&mut server, at(1000), Message::PunchAck, 0).is_empty());
}

#[test]
fn a_datagram_without_a_message_changes_nothing() {
    let mut server = RendezvousServer::new();
    register(&mut server, at(1000), "alice", 0);
    let result = server.handle_datagram(at(2000), b"garbage", Duration::from_secs(1));
    assert!(matches!(result, Err(HolePunchError::Serialization(_))));
    assert_eq!(list(&mut server), vec!["alice".to_string()]);
}

// -- Peers that fall silent ---------------------------------------------------------

#[test]
fn a_silent_peer_is_dropped_after_the_timeout() {
    let mut server = RendezvousServer::new();
    register(&mut server, at(1000), "alice", 10);
    register(&mut server, at(2000), "bob", 20);
    assert!(server.remove_stale_peers(Duration::from_secs(130)).is_empty());
    let gone = server.remove_stale_peers(Duration::new(130, 1));
    assert_eq!(gone, vec!["alice".to_string()]);
    assert_eq!(list(&mut server), vec!["bob".to_string()]);
    assert!(server.remove_stale_peers(Duration::new(130, 1)).is_empty());
    let replies = send(&mut server, at(2000), connect("alice", "bob"), 131);
    assert_eq!(
        replies[0].message,
        Message::Error { message: "peer 'alice' not found".into() },
    );
}

#[test]
fn heartbeats_keep_a_peer() {
    let mut server = RendezvousServer::new();
    register(&mut server, at(1000), "alice", 0);
    register(&mut server, at(2000), "bob", 0);
    for round in 1..10u64 {
        assert!(send(&mut server, at(1000), Message::Heartbeat, 100 * round).is_empty());
        server.remove_stale_peers(Duration::from_secs(100 * round + 90));
    }
    assert_eq!(list(&mut server), vec!["alice".to_string()]);
}

#[test]
fn registering_again_keeps_a_peer() {
    let mut server = RendezvousServer::new();
    for round in 0..5u64 {
        register(&mut server, at(1000), "alice", 100 * round);
        assert!(server.remove_stale_peers(Duration::from_secs(100 * round + 90)).is_empty());
    }
    assert_eq!(list(&mut server), vec!["alice".to_string()]);
}

#[test]
fn a_heartbeat_counts_for_one_peer_at_its_address() {
    let mut server = RendezvousServer::new();
    register(&mut server, at(1000), "alice", 0);
    register(&mut server, at(1000), "alias", 0);
    send(&mut server, at(1000), Message::Heartbeat, 100);
    assert_eq!(server.remove_stale_peers(Duration::from_secs(150)).len(), 1);
    assert_eq!(list(&mut server).len(), 1);
}

#[test]
fn other_messages_do_not_count_as_a_sign_of_life() {
    let mut server = RendezvousServer::new();
    register(&mut server, at(1000), "alice", 0);
    send(&mut server, at(1000), Message::ListPeers, 100);
    assert_eq!(
        server.remove_stale_peers(Duration::from_secs(121)),
        vec!["alice".to_string()],
    );
}

#[test]
fn a_dropped_peer_can_register_again() {
    let mut server = RendezvousServer::new();
    register(&mut server, at(1000), "alice", 0);
    server.remove_stale_peers(Duration::from_secs(500));
    assert!(list(&mut server).is_empty());
    register(&mut server, at(1000), "alice", 501);
    assert_eq!(list(&mut server), vec!["alice".to_string()]);
}
