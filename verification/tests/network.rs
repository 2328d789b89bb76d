//! Clients and the server together, on a network that keeps packets in memory.
use std::collections::VecDeque;

use crab_tunnel::flow::{Flow, FlowAction};
use crab_tunnel::hole_punch::{PunchAction, PunchSession};
use crab_tunnel::protocol::{encode, Datagram};
use crab_tunnel::{
    accept_and_punch, full_hole_punch, Duration, HolePunchClient, HolePunchError,
    IncomingConnection, IoEvent, Message, PeerConnection, PunchConfig, RecvOutcome,
    RendezvousServer, SocketAddr,
};

const SERVER: SocketAddr = SocketAddr::V4 { octets: [127, 0, 0, 1], port: 3478 };

fn at(port: u16) -> SocketAddr {
    SocketAddr::V4 { octets: [127, 0, 0, 1], port }
}

/// A packet that is on its way, with its target and its sender.
struct Packet {
    to: SocketAddr,
    from: SocketAddr,
    data: Vec<u8>,
}

struct Net {
    server: RendezvousServer,
    packets: VecDeque<Packet>,
    millis: u64,
}

impl Net {
    fn new() -> Net {
        Net { server: RendezvousServer::new(), packets: VecDeque::new(), millis: 0 }
    }

    fn now(&self) -> Duration {
        Duration::from_millis(self.millis)
    }

    fn pass(&mut self, span: Duration) {
        self.millis += span.as_secs() * 1000 + u64::from(span.subsec_nanos() / 1_000_000);
    }

    fn send(&mut self, from: SocketAddr, packet: Datagram) {
        if packet.to == SERVER {
            let now = self.now();
            if let Ok(sent) = self.server.handle_datagram(from, &packet.bytes, now) {
                for reply in sent {
                    self.packets.push_back(Packet {
                        to: reply.to,
                        from: SERVER,
                        data: reply.bytes,
                    });
                }
            }
        } else {
            self.packets.push_back(Packet { to: packet.to, from, data: packet.bytes });
        }
    }

    fn has_packet(&self, to: SocketAddr) -> bool {
        self.packets.iter().any(|one| one.to == to)
    }

    fn read(&mut self, to: SocketAddr) -> RecvOutcome {
        match self.packets.iter().position(|one| one.to == to) {
            Some(index) => {
                let packet = self.packets.remove(index).unwrap();
                RecvOutcome::Received { data: packet.data, from: packet.from }
            }
            None => RecvOutcome::TimedOut,
        }
    }

    fn read_data(&mut self, to: SocketAddr) -> (Vec<u8>, SocketAddr) {
        match self.read(to) {
            RecvOutcome::Received { data, from } => (data, from),
            other => panic!("expected a packet, got {other:?}"),
        }
    }
}

/// A client with its address.
struct Peer {
    client: HolePunchClient,
    addr: SocketAddr,
}

impl Peer {
    fn new(port: u16) -> Peer {
        Peer { client: HolePunchClient::new(SERVER), addr: at(port) }
    }

    fn registered(net: &mut Net, port: u16, id: &str) -> Peer {
        let mut peer = Peer::new(port);
        peer.register(net, id).unwrap();
        peer
    }

    fn register(&mut self, net: &mut Net, id: &str) -> Result<SocketAddr, HolePunchError> {
        let request = self.client.register(id);
        net.send(self.addr, request);
        loop {
            if let Some(end) = self.client.on_register(net.read(self.addr)) {
                return end;
            }
        }
    }

    fn connect(&mut self, net: &mut Net, target: &str) -> Result<SocketAddr, HolePunchError> {
        let request = self.client.connect_to_peer(target);
        net.send(self.addr, request);
        loop {
            if let Some(end) = self.client.on_connect(net.read(self.addr)) {
                return end;
            }
        }
    }

    fn accept(&mut self, net: &mut Net) -> Result<IncomingConnection, HolePunchError> {
        if let Some(incoming) = self.client.accept_incoming() {
            return Ok(incoming);
        }
        loop {
            if let Some(end) = self.client.on_accept(net.read(self.addr)) {
                return end;
            }
        }
    }

    fn list(&mut self, net: &mut Net) -> Result<Vec<String>, HolePunchError> {
        let request = self.client.list_peers();
        net.send(self.addr, request);
        loop {
            if let Some(end) = self.client.on_list(net.read(self.addr)) {
                return end;
            }
        }
    }

    fn relay(&self, net: &mut Net, target: &str, data: &[u8]) {
        let request = self.client.relay_to(target, data.to_vec());
        net.send(self.addr, request);
    }

    fn recv_any(&self, net: &mut Net) -> Result<(Message, SocketAddr), HolePunchError> {
        let (data, from) = net.read_data(self.addr);
        self.client.recv_any(Ok((data, from)))
    }
}

/// Sends everything that a session sends, up to the wait for an answer.
fn send_all(net: &mut Net, session: &mut PunchSession, addr: SocketAddr) {
    loop {
        match session.advance(IoEvent::Done, net.now()) {
            PunchAction::Send { packet } => net.send(addr, packet),
            PunchAction::Sleep { delay } => net.pass(delay),
            PunchAction::Receive { .. } => return,
            other => panic!("the session ended early: {other:?}"),
        }
    }
}

/// Reads until a session ends.
fn read_all(
    net: &mut Net,
    session: &mut PunchSession,
    addr: SocketAddr,
) -> Result<SocketAddr, HolePunchError> {
    loop {
        let outcome = net.read(addr);
        match session.advance(IoEvent::Read(outcome), net.now()) {
            PunchAction::Receive { .. } => {}
            PunchAction::Finish(result) => return result,
            other => panic!("expected no more packets, got {other:?}"),
        }
    }
}

/// A flow with its address and what it is to do next.
struct Walker {
    flow: Flow,
    addr: SocketAddr,
    action: Option<FlowAction>,
    end: Option<Result<PeerConnection, HolePunchError>>,
}

impl Walker {
    fn new(begun: (Flow, Datagram), addr: SocketAddr) -> Walker {
        let (flow, packet) = begun;
        Walker { flow, addr, action: Some(FlowAction::Send { packet }), end: None }
    }

    fn tell(&mut self, net: &Net, event: IoEvent) {
        self.action = Some(self.flow.advance(event, net.now()));
    }

    /// Does what is to be done, if it can be done now.
    fn step(&mut self, net: &mut Net, nobody_else: bool) -> bool {
        match self.action.take() {
            None => false,
            Some(FlowAction::Send { packet }) => {
                net.send(self.addr, packet);
                self.tell(net, IoEvent::Done);
                true
            }
            Some(FlowAction::Sleep { delay }) => {
                net.pass(delay);
                self.tell(net, IoEvent::Done);
                true
            }
            Some(FlowAction::Receive { timeout }) => {
                if net.has_packet(self.addr) {
                    let outcome = net.read(self.addr);
                    self.tell(net, IoEvent::Read(outcome));
                    true
                } else if nobody_else {
                    net.pass(timeout);
                    self.tell(net, IoEvent::Read(RecvOutcome::TimedOut));
                    true
                } else {
                    self.action = Some(FlowAction::Receive { timeout });
                    false
                }
            }
            Some(FlowAction::Finish(end)) => {
                self.end = Some(end);
                false
            }
        }
    }
}

/// Goes all ways to their ends.
fn walk(net: &mut Net, walkers: &mut [Walker]) {
    while walkers.iter().any(|one| one.end.is_none()) {
        let mut busy = false;
        for one in walkers.iter_mut() {
            busy = one.step(net, false) || busy;
        }
        if !busy {
            for one in walkers.iter_mut() {
                one.step(net, true);
            }
        }
    }
}

fn end(walker: &mut Walker) -> Result<PeerConnection, HolePunchError> {
    walker.end.take().unwrap()
}

// -- Clients ---------------------------------------------------------------------

#[test]
fn test_client_register() {
    let mut net = Net::new();
    let mut peer = Peer::new(1000);
    let public = peer.register(&mut net, "test-register").unwrap();
    assert!(public.port() > 0);
    assert_eq!(public, at(1000));
    assert_eq!(peer.client.peer_id(), "test-register");
    assert_eq!(peer.client.public_addr(), public);
}

#[test]
fn test_client_register_twice() {
    let mut net = Net::new();
    let mut peer = Peer::new(1000);
    peer.register(&mut net, "first").unwrap();
    peer.register(&mut net, "second").unwrap();
    assert_eq!(peer.client.peer_id(), "second");
}

#[test]
fn test_client_connect_unknown() {
    let mut net = Net::new();
    let mut peer = Peer::registered(&mut net, 1000, "client-a");
    let result = peer.connect(&mut net, "nonexistent");
    assert!(result.is_err(), "connect to unknown peer should fail");
    assert_eq!(
        result.unwrap_err().to_string(),
        "Server error: peer 'nonexistent' not found",
    );
}

#[test]
fn test_client_list_peers() {
    let mut net = Net::new();
    let mut alice = Peer::registered(&mut net, 1000, "alice");
    let _bob = Peer::registered(&mut net, 2000, "bob");
    let peers = alice.list(&mut net).unwrap();
    assert!(peers.contains(&"alice".into()), "alice sees alice");
    assert!(peers.contains(&"bob".into()), "alice sees bob");
}

#[test]
fn test_client_heartbeat() {
    let mut net = Net::new();
    let peer = Peer::registered(&mut net, 1000, "hb-test");
    let packet = peer.client.send_heartbeat();
    assert_eq!(packet.to, SERVER);
    assert_eq!(packet.bytes, encode(&Message::Heartbeat).unwrap());
    net.send(peer.addr, packet);
    assert!(!net.has_packet(peer.addr));
}

#[test]
fn test_relay_between_two_clients() {
    let mut net = Net::new();
    let alice = Peer::registered(&mut net, 1000, "relay-alice");
    let bob = Peer::registered(&mut net, 2000, "relay-bob");
    alice.relay(&mut net, "relay-bob", b"hello via relay");
    let (msg, _) = bob.recv_any(&mut net).unwrap();
    match msg {
        Message::RelayData { data, .. } => {
            assert_eq!(data, b"hello via relay");
        }
        other => panic!("expected RelayData, got {other:?}"),
    }
}

#[test]
fn test_connect_flow_between_two_clients() {
    let mut net = Net::new();
    let mut alice = Peer::registered(&mut net, 1000, "alice");
    let _bob = Peer::registered(&mut net, 2000, "bob");
    let mut helper = Peer::registered(&mut net, 3000, "bob-helper");

    let peer_addr = helper.connect(&mut net, "alice").unwrap();
    let mut bob_session = helper.client.punch_to(peer_addr);
    send_all(&mut net, &mut bob_session, helper.addr);

    let incoming = alice.accept(&mut net).unwrap();
    assert_eq!(
        incoming.peer_id, "bob-helper",
        "should receive punch request from bob-helper"
    );
    let mut alice_session = alice.client.punch_to(incoming.peer_addr);
    send_all(&mut net, &mut alice_session, alice.addr);
    assert_eq!(read_all(&mut net, &mut alice_session, alice.addr).unwrap(), helper.addr);

    let bob_result = read_all(&mut net, &mut bob_session, helper.addr);
    assert!(bob_result.is_ok(), "bob's punch should succeed: {bob_result:?}");
    assert_eq!(bob_result.unwrap(), alice.addr);
}

#[test]
fn test_full_hole_punch_convenience() {
    let mut net = Net::new();
    let mut walkers = [
        Walker::new(accept_and_punch(SERVER, "alice-conv"), at(1000)),
        Walker::new(full_hole_punch(SERVER, "bob-conv", "alice-conv"), at(2000)),
    ];
    walk(&mut net, &mut walkers);
    let alice = end(&mut walkers[0]).unwrap();
    let bob = end(&mut walkers[1]).unwrap();
    assert_eq!(alice.peer_id, "bob-conv", "alice should connect with bob");
    assert_eq!(alice.peer_addr, at(2000));
    assert_eq!(bob.peer_id, "alice-conv");
    assert_eq!(bob.peer_addr, at(1000));
}

#[test]
fn a_new_client_has_the_defaults() {
    let client = HolePunchClient::new(SERVER);
    assert_eq!(client.peer_id(), "");
    assert_eq!(client.public_addr(), SocketAddr::V4 { octets: [0, 0, 0, 0], port: 0 });
    assert!(!client.has_pending_incoming());
    assert_eq!(client.recv_timeout(), Duration::from_secs(30));
    assert_eq!(client.punch_config().attempts, 30);
}

#[test]
fn a_client_keeps_its_settings() {
    let mut client = HolePunchClient::new(SERVER);
    client.set_recv_timeout(Duration::from_secs(2));
    client.set_punch_config(PunchConfig { attempts: 3, ..PunchConfig::default() });
    assert_eq!(client.recv_timeout(), Duration::from_secs(2));
    assert_eq!(client.punch_config().attempts, 3);
    let mut session = client.punch_to(at(2000));
    let mut sent: u32 = 0;
    loop {
        match session.advance(IoEvent::Done, Duration::from_secs(0)) {
            PunchAction::Send { .. } => sent += 1,
            PunchAction::Sleep { .. } => {}
            _ => break,
        }
    }
    assert_eq!(sent, 3);
}

#[test]
fn a_client_punches_with_its_last_settings() {
    let mut net = Net::new();
    let mut peer = Peer::new(1000);
    peer.client.set_punch_config(PunchConfig { attempts: 7, ..PunchConfig::default() });
    peer.client.set_punch_config(PunchConfig { attempts: 1, ..PunchConfig::default() });
    peer.register(&mut net, "me").unwrap();
    let mut session = peer.client.punch_to(at(2000));
    send_all(&mut net, &mut session, peer.addr);
    net.read_data(at(2000));
    assert!(!net.has_packet(at(2000)));
    assert_eq!(peer.client.peer_id(), "me");
    assert_eq!(peer.client.public_addr(), at(1000));
    assert!(!peer.client.has_pending_incoming());
}

#[test]
fn a_client_that_hears_nothing_times_out() {
    let mut client = HolePunchClient::new(SERVER);
    client.register("lonely");
    assert!(matches!(
        client.on_register(RecvOutcome::TimedOut),
        Some(Err(HolePunchError::Timeout))
    ));
    assert!(matches!(
        client.on_connect(RecvOutcome::TimedOut),
        Some(Err(HolePunchError::Timeout))
    ));
    assert!(matches!(
        client.on_accept(RecvOutcome::TimedOut),
        Some(Err(HolePunchError::Timeout))
    ));
    assert!(matches!(client.on_list(RecvOutcome::TimedOut), Some(Err(HolePunchError::Timeout))));
}

#[test]
fn a_client_passes_on_the_error_of_its_socket() {
    let mut client = HolePunchClient::new(SERVER);
    let error = std::io::Error::new(std::io::ErrorKind::Other, "broken");
    match client.on_register(RecvOutcome::Failed(error)) {
        Some(Err(HolePunchError::Io(error))) => assert_eq!(error.to_string(), "broken"),
        other => panic!("expected the error of the socket, got {other:?}"),
    }
    let error = std::io::Error::new(std::io::ErrorKind::Other, "broken");
    assert!(matches!(client.recv_any(Err(error)), Err(HolePunchError::Io(_))));
}

#[test]
fn packets_that_are_no_messages_of_the_server_are_ignored() {
    let mut client = HolePunchClient::new(SERVER);
    let ack = encode(&Message::RegisterAck { public_addr: at(1) }).unwrap();
    let forged = RecvOutcome::Received { data: ack.clone(), from: at(666) };
    assert!(client.on_register(forged).is_none());
    let garbage = RecvOutcome::Received { data: b"garbage".to_vec(), from: SERVER };
    assert!(client.on_register(garbage).is_none());
    let unexpected = RecvOutcome::Received {
        data: encode(&Message::Heartbeat).unwrap(),
        from: SERVER,
    };
    assert!(client.on_register(unexpected).is_none());
    let genuine = RecvOutcome::Received { data: ack, from: SERVER };
    assert!(matches!(client.on_register(genuine), Some(Ok(addr)) if addr == at(1)));
}

#[test]
fn requests_that_come_meanwhile_are_kept_in_order() {
    let mut client = HolePunchClient::new(SERVER);
    for (id, port) in [("one", 1u16), ("two", 2), ("three", 3)] {
        let data = encode(&Message::PunchRequest {
            from_peer_id: id.into(),
            from_addr: at(port),
        })
        .unwrap();
        let outcome = RecvOutcome::Received { data, from: SERVER };
        match port {
            1 => assert!(client.on_register(outcome).is_none()),
            2 => assert!(client.on_connect(outcome).is_none()),
            _ => assert!(client.on_list(outcome).is_none()),
        }
    }
    assert!(client.has_pending_incoming());
    for (id, port) in [("one", 1u16), ("two", 2), ("three", 3)] {
        let incoming = client.accept_incoming().unwrap();
        assert_eq!(incoming.peer_id, id);
        assert_eq!(incoming.peer_addr, at(port));
    }
    assert!(!client.has_pending_incoming());
    assert!(client.accept_incoming().is_none());
}

#[test]
fn accepted_requests_leave_the_later_ones() {
    let mut client = HolePunchClient::new(SERVER);
    let ask = |client: &mut HolePunchClient, id: &str, port: u16| {
        let msg = Message::PunchRequest { from_peer_id: id.into(), from_addr: at(port) };
        let data = encode(&msg).unwrap();
        assert!(client.on_register(RecvOutcome::Received { data, from: SERVER }).is_none());
    };
    ask(&mut client, "one", 1);
    ask(&mut client, "two", 2);
    assert_eq!(client.accept_incoming().unwrap().peer_id, "one");
    ask(&mut client, "three", 3);
    client.register("me");
    client.set_recv_timeout(Duration::from_secs(1));
    assert_eq!(client.accept_incoming().unwrap().peer_id, "two");
    assert_eq!(client.accept_incoming().unwrap().peer_id, "three");
    assert!(!client.has_pending_incoming());
}

#[test]
fn one_who_accepts_does_not_mind_errors() {
    let client = HolePunchClient::new(SERVER);
    let data = encode(&Message::Error { message: "no".into() }).unwrap();
    assert!(client.on_accept(RecvOutcome::Received { data, from: SERVER }).is_none());
}

#[test]
fn errors_of_the_server_are_passed_on() {
    let mut client = HolePunchClient::new(SERVER);
    let data = encode(&Message::Error { message: "no".into() }).unwrap();
    for request in 0..3u8 {
        let outcome = RecvOutcome::Received { data: data.clone(), from: SERVER };
        let error = match request {
            0 => client.on_register(outcome).unwrap().unwrap_err(),
            1 => client.on_connect(outcome).unwrap().unwrap_err(),
            _ => client.on_list(outcome).unwrap().unwrap_err(),
        };
        assert!(matches!(error, HolePunchError::Server(message) if message == "no"));
    }
}

#[test]
fn any_message_can_be_read_from_anyone() {
    let client = HolePunchClient::new(SERVER);
    let data = encode(&Message::PunchAck).unwrap();
    let (msg, from) = client.recv_any(Ok((data, at(7)))).unwrap();
    assert_eq!(msg, Message::PunchAck);
    assert_eq!(from, at(7));
    assert!(matches!(
        client.recv_any(Ok((b"garbage".to_vec(), at(7)))),
        Err(HolePunchError::Serialization(_))
    ));
}

// -- Clients and the server -----------------------------------------------------------

#[test]
fn server_starts_and_accepts_registrations() {
    let mut net = Net::new();
    let mut alice = Peer::new(1000);
    let public = alice.register(&mut net, "int-alice").unwrap();
    assert!(public.port() > 0, "server must assign a public address");

    let mut bob = Peer::new(2000);
    let public = bob.register(&mut net, "int-bob").unwrap();
    assert!(public.port() > 0);

    let peers = alice.list(&mut net).unwrap();
    assert!(peers.contains(&"int-alice".into()));
    assert!(peers.contains(&"int-bob".into()));
}

#[test]
fn full_hole_punch_flow() {
    let mut net = Net::new();
    let mut walkers = [
        Walker::new(accept_and_punch(SERVER, "int-alice"), at(1000)),
        Walker::new(full_hole_punch(SERVER, "int-bob", "int-alice"), at(2000)),
    ];
    walk(&mut net, &mut walkers);
    let alice = end(&mut walkers[0]).unwrap();
    let bob = end(&mut walkers[1]).unwrap();
    assert_eq!(alice.peer_id, "int-bob");
    assert_eq!(alice.peer_addr.port(), at(2000).port(),
        "alice's punched port must match bob's socket port");
    assert_eq!(bob.peer_addr.port(), at(1000).port(),
        "bob's punched port must match alice's socket port");

    let a_addr = alice.peer_addr;
    let b_addr = bob.peer_addr;
    let msg_a = b"hello from A";
    net.send(at(1000), Datagram { to: a_addr, bytes: msg_a.to_vec() });
    let (data, from) = net.read_data(at(2000));
    assert_eq!(from, b_addr, "B should receive from A's address");
    assert_eq!(data, msg_a, "B should receive A's message");

    let msg_b = b"hello from B";
    net.send(at(2000), Datagram { to: b_addr, bytes: msg_b.to_vec() });
    let (data, from) = net.read_data(at(1000));
    assert_eq!(from, a_addr, "A should receive from B's address");
    assert_eq!(data, msg_b, "A should receive B's message");
}

#[test]
fn relay_communication() {
    let mut net = Net::new();
    let alice = Peer::registered(&mut net, 1000, "relay-a");
    let bob = Peer::registered(&mut net, 2000, "relay-b");
    let payload = b"relayed data payload".to_vec();
    alice.relay(&mut net, "relay-b", &payload);
    let (msg, _from) = bob.recv_any(&mut net).unwrap();
    match msg {
        Message::RelayData { data, .. } => {
            assert_eq!(data, payload, "relayed data must match");
        }
        other => panic!("expected RelayData, got {other:?}"),
    }
}

#[test]
fn relay_bidirectional() {
    let mut net = Net::new();
    let alice = Peer::registered(&mut net, 1000, "relay-bi-a");
    let bob = Peer::registered(&mut net, 2000, "relay-bi-b");

    alice.relay(&mut net, "relay-bi-b", b"from A");
    let (msg, _) = bob.recv_any(&mut net).unwrap();
    assert!(matches!(msg, Message::RelayData { ref data, .. } if data == b"from A"));

    bob.relay(&mut net, "relay-bi-a", b"from B");
    let (msg, _) = alice.recv_any(&mut net).unwrap();
    assert!(matches!(msg, Message::RelayData { ref data, .. } if data == b"from B"));
}

#[test]
fn three_peers_concurrent() {
    let mut net = Net::new();
    let mut a = Peer::registered(&mut net, 1000, "alpha");
    let _b = Peer::registered(&mut net, 2000, "beta");
    let mut g = Peer::registered(&mut net, 3000, "gamma");

    let peers = a.list(&mut net).unwrap();
    assert_eq!(peers.len(), 3, "all three peers visible");
    assert!(peers.contains(&"alpha".into()));
    assert!(peers.contains(&"beta".into()));
    assert!(peers.contains(&"gamma".into()));

    let mut beta = Peer::registered(&mut net, 4000, "beta-2");
    let peer_addr = beta.connect(&mut net, "alpha").unwrap();
    let mut beta_session = beta.client.punch_to(peer_addr);
    send_all(&mut net, &mut beta_session, beta.addr);

    let incoming = a.accept(&mut net).unwrap();
    assert_eq!(incoming.peer_id, "beta-2");
    let mut session = a.client.punch_to(incoming.peer_addr);
    send_all(&mut net, &mut session, a.addr);
    read_all(&mut net, &mut session, a.addr).unwrap();
    read_all(&mut net, &mut beta_session, beta.addr).unwrap();

    let peers = g.list(&mut net).unwrap();
    assert!(!peers.is_empty(), "gamma still sees peers");
}

#[test]
fn connect_to_nonexistent_peer() {
    let mut net = Net::new();
    let mut client = Peer::registered(&mut net, 1000, "lonely");
    let result = client.connect(&mut net, "does-not-exist");
    assert!(
        result.is_err(),
        "connecting to a non-existent peer should fail"
    );
}

#[test]
fn client_receives_incoming_while_connecting() {
    let mut net = Net::new();
    let mut alice = Peer::registered(&mut net, 1000, "alice-incoming");
    let _bob = Peer::registered(&mut net, 2000, "bob-incoming");

    // Charlie asks for Alice while Alice is connecting to Bob.
    let mut charlie = Peer::registered(&mut net, 3000, "charlie-incoming");
    let peer_addr = charlie.connect(&mut net, "alice-incoming").unwrap();
    assert_eq!(peer_addr, alice.addr);
    assert_eq!(alice.connect(&mut net, "bob-incoming").unwrap(), at(2000));
    assert!(alice.client.has_pending_incoming());

    let mut charlie_session = charlie.client.punch_to(peer_addr);
    send_all(&mut net, &mut charlie_session, charlie.addr);
    let incoming = alice.accept(&mut net).unwrap();
    assert_eq!(incoming.peer_id, "charlie-incoming");
    let mut session = alice.client.punch_to(incoming.peer_addr);
    send_all(&mut net, &mut session, alice.addr);
    read_all(&mut net, &mut session, alice.addr).unwrap();
    read_all(&mut net, &mut charlie_session, charlie.addr).unwrap();
}

#[test]
fn incoming_gets_queued_during_register() {
    let mut net = Net::new();
    let mut alice = Peer::registered(&mut net, 1000, "alice-queue");
    let mut charlie = Peer::registered(&mut net, 2000, "charlie-queue");
    let peer_addr = charlie.connect(&mut net, "alice-queue").unwrap();

    // The request waits while Alice registers once more.
    alice.register(&mut net, "alice-queue").unwrap();
    assert!(alice.client.has_pending_incoming());

    let mut charlie_session = charlie.client.punch_to(peer_addr);
    send_all(&mut net, &mut charlie_session, charlie.addr);
    let incoming = alice.accept(&mut net).unwrap();
    assert_eq!(incoming.peer_id, "charlie-queue");
    let mut session = alice.client.punch_to(incoming.peer_addr);
    send_all(&mut net, &mut session, alice.addr);
    read_all(&mut net, &mut session, alice.addr).unwrap();
    read_all(&mut net, &mut charlie_session, charlie.addr).unwrap();
}

#[test]
fn heartbeat_prevents_cleanup() {
    let mut net = Net::new();
    let mut client = Peer::registered(&mut net, 1000, "hb-peer");
    for _ in 0..5u8 {
        net.pass(Duration::from_secs(100));
        let packet = client.client.send_heartbeat();
        net.send(client.addr, packet);
        let now = net.now();
        assert!(net.server.remove_stale_peers(now).is_empty());
    }
    let peers = client.list(&mut net).unwrap();
    assert!(peers.contains(&"hb-peer".into()));
}

#[test]
fn two_independent_pairs() {
    let mut net = Net::new();
    for (first, second, port, text) in [
        ("pair-a", "pair-b", 1000u16, b"msg-ab"),
        ("pair-c", "pair-d", 3000u16, b"msg-cd"),
    ] {
        let mut walkers = [
            Walker::new(accept_and_punch(SERVER, first), at(port)),
            Walker::new(full_hole_punch(SERVER, second, first), at(port + 1)),
        ];
        walk(&mut net, &mut walkers);
        let accepted = end(&mut walkers[0]).unwrap();
        end(&mut walkers[1]).unwrap();
        net.send(at(port), Datagram { to: accepted.peer_addr, bytes: text.to_vec() });
        let (data, from) = net.read_data(at(port + 1));
        assert_eq!(&data, text);
        assert_eq!(from.port(), port);
    }
}

// -- The whole way ---------------------------------------------------------------

#[test]
fn the_way_begins_with_a_registration() {
    let (_, packet) = full_hole_punch(SERVER, "me", "you");
    assert_eq!(packet.to, SERVER);
    assert_eq!(packet.bytes, encode(&Message::Register { peer_id: "me".into() }).unwrap());
    let (_, packet) = accept_and_punch(SERVER, "me");
    assert_eq!(packet.to, SERVER);
    assert_eq!(packet.bytes, encode(&Message::Register { peer_id: "me".into() }).unwrap());
}

#[test]
fn the_way_to_an_unknown_peer_ends_with_an_error() {
    let mut net = Net::new();
    let mut walkers = [Walker::new(full_hole_punch(SERVER, "me", "nobody"), at(1000))];
    walk(&mut net, &mut walkers);
    assert_eq!(
        end(&mut walkers[0]).unwrap_err().to_string(),
        "Server error: peer 'nobody' not found",
    );
}

#[test]
fn one_whom_nobody_asks_for_times_out() {
    let mut net = Net::new();
    let mut walkers = [Walker::new(accept_and_punch(SERVER, "me"), at(1000))];
    walk(&mut net, &mut walkers);
    assert!(matches!(end(&mut walkers[0]), Err(HolePunchError::Timeout)));
    assert_eq!(net.millis, 30_000);
}

#[test]
fn a_target_that_does_not_punch_back_is_not_reached() {
    let mut net = Net::new();
    let _silent = Peer::registered(&mut net, 2000, "silent");
    let mut walkers = [Walker::new(full_hole_punch(SERVER, "me", "silent"), at(1000))];
    walk(&mut net, &mut walkers);
    assert!(matches!(end(&mut walkers[0]), Err(HolePunchError::PunchFailed)));
    assert_eq!(net.millis, 5_000);
}

#[test]
fn a_packet_that_cannot_be_sent_ends_the_way() {
    let (mut flow, _) = full_hole_punch(SERVER, "me", "you");
    let error = std::io::Error::new(std::io::ErrorKind::Other, "broken");
    match flow.advance(IoEvent::SendFailed(error), Duration::from_secs(0)) {
        FlowAction::Finish(Err(HolePunchError::Io(error))) => {
            assert_eq!(error.to_string(), "broken");
        }
        other => panic!("expected the error of the socket, got {other:?}"),
    }
}

#[test]
fn a_request_during_the_registration_is_accepted_first() {
    let (mut flow, _) = accept_and_punch(SERVER, "me");
    let start = Duration::from_secs(0);
    assert!(matches!(flow.advance(IoEvent::Done, start), FlowAction::Receive { .. }));
    for (id, port) in [("early", 5u16), ("late", 6)] {
        let data = encode(&Message::PunchRequest {
            from_peer_id: id.into(),
            from_addr: at(port),
        })
        .unwrap();
        let read = IoEvent::Read(RecvOutcome::Received { data, from: SERVER });
        assert!(matches!(flow.advance(read, start), FlowAction::Receive { .. }));
    }
    let data = encode(&Message::RegisterAck { public_addr: at(1000) }).unwrap();
    let read = IoEvent::Read(RecvOutcome::Received { data, from: SERVER });
    match flow.advance(read, start) {
        FlowAction::Send { packet } => {
            assert_eq!(packet.to, at(5));
            assert_eq!(packet.bytes, encode(&Message::PunchAck).unwrap());
        }
        other => panic!("expected a punch packet, got {other:?}"),
    }
}

#[test]
fn strangers_do_not_disturb_the_way() {
    let (mut flow, _) = full_hole_punch(SERVER, "me", "you");
    let start = Duration::from_secs(0);
    flow.advance(IoEvent::Done, start);
    let data = encode(&Message::RegisterAck { public_addr: at(1000) }).unwrap();
    let forged = IoEvent::Read(RecvOutcome::Received { data: data.clone(), from: at(666) });
    assert!(matches!(flow.advance(forged, start), FlowAction::Receive { .. }));
    let genuine = IoEvent::Read(RecvOutcome::Received { data, from: SERVER });
    match flow.advance(genuine, start) {
        FlowAction::Send { packet } => {
            assert_eq!(packet.to, SERVER);
            assert_eq!(
                packet.bytes,
                encode(&Message::ConnectRequest {
                    target_peer_id: "you".into(),
                    requester_peer_id: "me".into(),
                })
                .unwrap(),
            );
        }
        other => panic!("expected a request for the peer, got {other:?}"),
    }
}
