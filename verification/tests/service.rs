use crab_tunnel::protocol::{decode, encode};
use crab_tunnel::service::ServiceAction;
use crab_tunnel::{
    Duration, IoEvent, Message, RecvOutcome, RendezvousServer, Service, SocketAddr,
};

fn at(port: u16) -> SocketAddr {
    SocketAddr::V4 { octets: [127, 0, 0, 1], port }
}

fn start() -> Duration {
    Duration::from_secs(0)
}

fn from(port: u16, msg: &Message) -> IoEvent {
    IoEvent::Read(RecvOutcome::Received { data: encode(msg).unwrap(), from: at(port) })
}

fn broken() -> std::io::Error {
    std::io::Error::new(std::io::ErrorKind::Other, "broken")
}

fn expect_send(action: ServiceAction, port: u16) -> Message {
    match action {
        ServiceAction::Send { packet } => {
            assert_eq!(packet.to, at(port));
            decode(&packet.bytes).unwrap()
        }
        other => panic!("expected a packet, got {other:?}"),
    }
}

fn expect_receive(action: ServiceAction) {
    assert!(matches!(action, ServiceAction::Receive), "expected a read, got {action:?}");
}

/// A server with a service that works for it.
struct Working {
    server: RendezvousServer,
    service: Service,
}

impl Working {
    fn advance(&mut self, event: IoEvent, now: Duration) -> ServiceAction {
        self.service.advance(&mut self.server, event, now)
    }
}

fn with_alice() -> Working {
    let mut service = Working { server: RendezvousServer::new(), service: Service::new() };
    let action =
        service.advance(from(1000, &Message::Register { peer_id: "alice".into() }), start());
    assert_eq!(expect_send(action, 1000), Message::RegisterAck { public_addr: at(1000) });
    expect_receive(service.advance(IoEvent::Done, start()));
    service
}

fn request() -> Message {
    Message::ConnectRequest { target_peer_id: "alice".into(), requester_peer_id: "bob".into() }
}

#[test]
fn answers_go_out_one_after_the_other() {
    let mut service = with_alice();
    let action = service.advance(from(2000, &request()), start());
    assert_eq!(
        expect_send(action, 1000),
        Message::PunchRequest { from_peer_id: "bob".into(), from_addr: at(2000) },
    );
    let action = service.advance(IoEvent::Done, start());
    assert_eq!(
        expect_send(action, 2000),
        Message::ConnectResponse { peer_addr: at(1000), peer_id: "alice".into() },
    );
    expect_receive(service.advance(IoEvent::Done, start()));
}

#[test]
fn a_failed_send_gives_up_what_is_behind_it() {
    let mut service = with_alice();
    expect_send(service.advance(from(2000, &request()), start()), 1000);
    expect_receive(service.advance(IoEvent::SendFailed(broken()), start()));
    expect_receive(service.advance(IoEvent::Done, start()));
    expect_send(service.advance(from(2000, &request()), start()), 1000);
}

#[test]
fn garbage_and_silence_are_passed_over() {
    let mut service = with_alice();
    let garbage = RecvOutcome::Received { data: b"garbage".to_vec(), from: at(2000) };
    expect_receive(service.advance(IoEvent::Read(garbage), start()));
    expect_receive(service.advance(IoEvent::Read(RecvOutcome::TimedOut), start()));
    expect_receive(service.advance(from(1000, &Message::Heartbeat), start()));
    match expect_send(service.advance(from(2000, &Message::ListPeers), start()), 2000) {
        Message::PeerList { peers } => assert_eq!(peers, vec!["alice".to_string()]),
        other => panic!("expected PeerList, got {other:?}"),
    }
}

#[test]
fn a_broken_socket_stops_the_service() {
    let mut service = with_alice();
    match service.advance(IoEvent::Read(RecvOutcome::Failed(broken())), start()) {
        ServiceAction::Stop(error) => assert_eq!(error.to_string(), "broken"),
        other => panic!("expected a stop, got {other:?}"),
    }
}

#[test]
fn the_service_drops_silent_peers() {
    let mut service = with_alice();
    assert!(service.server.remove_stale_peers(Duration::from_secs(120)).is_empty());
    assert_eq!(
        service.server.remove_stale_peers(Duration::from_secs(121)),
        vec!["alice".to_string()],
    );
    let action = service.advance(from(2000, &request()), start());
    assert_eq!(
        expect_send(action, 2000),
        Message::Error { message: "peer 'alice' not found".into() },
    );
}

#[test]
fn two_services_send_each_what_they_answer() {
    let mut first = with_alice();
    let mut second = Service::new();
    expect_send(first.advance(from(2000, &request()), start()), 1000);
    let action = second.advance(&mut first.server, from(3000, &Message::ListPeers), start());
    assert_eq!(
        expect_send(action, 3000),
        Message::PeerList { peers: vec!["alice".to_string()] },
    );
    expect_receive(second.advance(&mut first.server, IoEvent::SendFailed(broken()), start()));
    expect_send(first.advance(IoEvent::Done, start()), 2000);
}

#[test]
fn a_run_is_the_same_without_garbage() {
    let messages = [
        Message::Register { peer_id: "bob".into() },
        request(),
        Message::ListPeers,
    ];
    let mut runs: Vec<Vec<Message>> = Vec::new();
    for with_garbage in [false, true] {
        let mut service = with_alice();
        let mut sent: Vec<Message> = Vec::new();
        for message in &messages {
            if with_garbage {
                let data = b"garbage".to_vec();
                let garbage = RecvOutcome::Received { data, from: at(2000) };
                expect_receive(service.advance(IoEvent::Read(garbage), start()));
            }
            let mut event = from(2000, message);
            while let ServiceAction::Send { packet } = service.advance(event, start()) {
                sent.push(decode(&packet.bytes).unwrap());
                event = IoEvent::Done;
            }
        }
        runs.push(sent);
    }
    assert_eq!(runs[0].len(), 4);
    assert_eq!(runs[0], runs[1]);
}
