use crab_tunnel::hole_punch::{PunchAction, PunchSession};
use crab_tunnel::protocol::encode;
use crab_tunnel::{
    punch_hole, Duration, HolePunchError, IoEvent, Message, PunchConfig, RecvOutcome, SocketAddr,
};

fn at(port: u16) -> SocketAddr {
    SocketAddr::V4 { octets: [127, 0, 0, 1], port }
}

fn ms(millis: u64) -> Duration {
    Duration::from_millis(millis)
}

fn packet(from: SocketAddr, data: &[u8]) -> IoEvent {
    IoEvent::Read(RecvOutcome::Received { data: data.to_vec(), from })
}

fn nothing() -> IoEvent {
    IoEvent::Read(RecvOutcome::TimedOut)
}

fn broken() -> std::io::Error {
    std::io::Error::new(std::io::ErrorKind::Other, "broken")
}

fn expect_punch(action: PunchAction, to: SocketAddr) {
    match action {
        PunchAction::Send { packet } => {
            assert_eq!(packet.to, to);
            assert_eq!(packet.bytes, encode(&Message::PunchAck).unwrap());
        }
        other => panic!("expected a punch packet to {to:?}, got {other:?}"),
    }
}

fn expect_sleep(action: PunchAction, time: Duration) {
    match action {
        PunchAction::Sleep { delay } => assert_eq!(delay, time),
        other => panic!("expected a pause, got {other:?}"),
    }
}

fn expect_receive(action: PunchAction, time: Duration) {
    match action {
        PunchAction::Receive { timeout } => assert_eq!(timeout, time),
        other => panic!("expected a read, got {other:?}"),
    }
}

fn expect_success(action: PunchAction, addr: SocketAddr) {
    match action {
        PunchAction::Finish(Ok(reached)) => assert_eq!(reached, addr),
        other => panic!("expected success, got {other:?}"),
    }
}

fn expect_failure(action: PunchAction) {
    assert!(
        matches!(action, PunchAction::Finish(Err(HolePunchError::PunchFailed))),
        "expected a failed punch, got {action:?}"
    );
}

/// A session with one attempt that listens since one second.
fn listening(peer: SocketAddr) -> PunchSession {
    let mut session = punch_hole(peer, &PunchConfig { attempts: 1, ..PunchConfig::default() });
    expect_punch(session.advance(IoEvent::Done, ms(1000)), peer);
    expect_receive(session.advance(IoEvent::Done, ms(1000)), Duration::from_secs(5));
    session
}

#[test]
fn test_punch_config_defaults() {
    let cfg = PunchConfig::default();
    assert_eq!(cfg.attempts, 30);
    assert_eq!(cfg.interval, Duration::from_millis(50));
    assert_eq!(cfg.response_timeout, Duration::from_secs(5));
    assert!(!cfg.port_prediction);
}

#[test]
fn the_default_range_of_predicted_ports() {
    assert_eq!(PunchConfig::default().port_prediction_range, 5);
}

#[test]
fn test_punch_between_two_sockets() {
    let config = PunchConfig { attempts: 15, interval: ms(50), ..PunchConfig::default() };
    let mut session = punch_hole(at(2000), &config);
    let mut action = session.advance(IoEvent::Done, ms(0));
    let mut sent: u32 = 0;
    let mut time: u64 = 0;
    loop {
        match action {
            PunchAction::Send { packet } => {
                assert_eq!(packet.to, at(2000));
                sent += 1;
            }
            PunchAction::Sleep { delay } => {
                assert_eq!(delay, ms(50));
                time += 50;
            }
            other => {
                expect_receive(other, ms(5000 - 14 * 50));
                break;
            }
        }
        action = session.advance(IoEvent::Done, ms(time));
    }
    assert_eq!(sent, 15);
    assert_eq!(time, 14 * 50);
    let answer = encode(&Message::PunchAck).unwrap();
    expect_receive(session.advance(packet(at(2000), &answer), ms(time)), ms(1));
    expect_success(session.advance(nothing(), ms(time)), at(2000));
}

#[test]
fn test_port_prediction_sends_extra_packets() {
    let config = PunchConfig {
        attempts: 5,
        port_prediction: true,
        port_prediction_range: 3,
        ..PunchConfig::default()
    };
    let mut session = punch_hole(at(2000), &config);
    for port in 2001..=2003u16 {
        expect_punch(session.advance(IoEvent::Done, ms(0)), at(port));
    }
    for attempt in 0..5u32 {
        expect_punch(session.advance(IoEvent::Done, ms(0)), at(2000));
        if attempt < 4 {
            expect_sleep(session.advance(IoEvent::Done, ms(0)), ms(50));
        }
    }
    expect_receive(session.advance(IoEvent::Done, ms(0)), Duration::from_secs(5));
}

#[test]
fn test_punch_to_nonexistent_peer_fails() {
    let config = PunchConfig { attempts: 3, interval: ms(10), ..PunchConfig::default() };
    let mut session = punch_hole(at(1), &config);
    for attempt in 0..3u32 {
        expect_punch(session.advance(IoEvent::Done, ms(0)), at(1));
        if attempt < 2 {
            expect_sleep(session.advance(IoEvent::Done, ms(0)), ms(10));
        }
    }
    expect_receive(session.advance(IoEvent::Done, ms(0)), Duration::from_secs(5));
    expect_failure(session.advance(nothing(), Duration::from_secs(5)));
}

// -- Sending ---------------------------------------------------------------------

#[test]
fn without_attempts_a_session_listens_at_once() {
    let config = PunchConfig { attempts: 0, ..PunchConfig::default() };
    let mut session = punch_hole(at(2000), &config);
    expect_receive(session.advance(IoEvent::Done, ms(7)), Duration::from_secs(5));
}

#[test]
fn the_highest_port_can_be_predicted() {
    let config = PunchConfig {
        attempts: 1,
        port_prediction: true,
        port_prediction_range: 5,
        ..PunchConfig::default()
    };
    let mut session = punch_hole(at(65530), &config);
    for port in 65531..=65535u16 {
        expect_punch(session.advance(IoEvent::Done, ms(0)), at(port));
    }
    expect_punch(session.advance(IoEvent::Done, ms(0)), at(65530));
}

#[test]
fn a_lost_guess_makes_no_difference() {
    let config = PunchConfig {
        attempts: 1,
        port_prediction: true,
        port_prediction_range: 2,
        ..PunchConfig::default()
    };
    let mut session = punch_hole(at(2000), &config);
    expect_punch(session.advance(IoEvent::Done, ms(0)), at(2001));
    expect_punch(session.advance(IoEvent::SendFailed(broken()), ms(0)), at(2002));
    expect_punch(session.advance(IoEvent::SendFailed(broken()), ms(0)), at(2000));
    expect_receive(session.advance(IoEvent::Done, ms(0)), Duration::from_secs(5));
}

#[test]
fn a_failed_attempt_ends_the_session() {
    let mut session = punch_hole(at(2000), &PunchConfig::default());
    expect_punch(session.advance(IoEvent::Done, ms(0)), at(2000));
    match session.advance(IoEvent::SendFailed(broken()), ms(0)) {
        PunchAction::Finish(Err(HolePunchError::Io(error))) => {
            assert_eq!(error.to_string(), "broken");
        }
        other => panic!("expected the error of the socket, got {other:?}"),
    }
}

#[test]
fn a_failure_of_the_last_attempt_ends_the_session() {
    let config = PunchConfig { attempts: 1, ..PunchConfig::default() };
    let mut session = punch_hole(at(2000), &config);
    expect_punch(session.advance(IoEvent::Done, ms(0)), at(2000));
    assert!(matches!(
        session.advance(IoEvent::SendFailed(broken()), ms(0)),
        PunchAction::Finish(Err(HolePunchError::Io(_)))
    ));
}

#[test]
fn port_prediction_only_adds_packets_in_front() {
    let plain = PunchConfig { attempts: 3, ..PunchConfig::default() };
    let predicting = PunchConfig { port_prediction: true, ..plain };
    let mut one = punch_hole(at(2000), &predicting);
    for port in 2001..=2005u16 {
        expect_punch(one.advance(IoEvent::SendFailed(broken()), ms(10)), at(port));
    }
    let mut other = punch_hole(at(2000), &plain);
    for step in 0..5u64 {
        let a = one.advance(IoEvent::Done, ms(10 + 25 * step));
        let b = other.advance(IoEvent::Done, ms(10 + 25 * step));
        assert_eq!(format!("{a:?}"), format!("{b:?}"));
    }
    for _ in 0..2u8 {
        let a = one.advance(packet(at(3000), b"garbage"), ms(500));
        let b = other.advance(packet(at(3000), b"garbage"), ms(500));
        assert_eq!(format!("{a:?}"), format!("{b:?}"));
    }
    expect_receive(one.advance(packet(at(2000), b"x"), ms(600)), ms(1));
    expect_receive(other.advance(packet(at(2000), b"x"), ms(600)), ms(1));
    expect_success(one.advance(nothing(), ms(601)), at(2000));
    expect_success(other.advance(nothing(), ms(601)), at(2000));
}

// -- The timeout -----------------------------------------------------------------

#[test]
fn the_timeout_counts_from_the_beginning() {
    let config = PunchConfig {
        attempts: 2,
        interval: Duration::from_secs(1),
        response_timeout: Duration::from_secs(5),
        ..PunchConfig::default()
    };
    let mut session = punch_hole(at(2000), &config);
    expect_punch(session.advance(IoEvent::Done, ms(100)), at(2000));
    expect_sleep(session.advance(IoEvent::Done, ms(100)), ms(1000));
    expect_punch(session.advance(IoEvent::Done, ms(1100)), at(2000));
    expect_receive(session.advance(IoEvent::Done, ms(1100)), ms(4000));
    expect_failure(session.advance(nothing(), ms(5100)));
}

#[test]
fn a_silent_punch_ends_with_the_timeout() {
    let mut session = punch_hole(at(2000), &PunchConfig::default());
    let mut event = IoEvent::Done;
    let mut time: u64 = 0;
    loop {
        match session.advance(event, ms(time)) {
            PunchAction::Send { .. } => event = IoEvent::Done,
            PunchAction::Sleep { delay } => {
                time += u64::from(delay.subsec_nanos() / 1_000_000);
                event = IoEvent::Done;
            }
            PunchAction::Receive { timeout } => {
                time += timeout.as_secs() * 1000 + u64::from(timeout.subsec_nanos() / 1_000_000);
                event = nothing();
            }
            end => {
                expect_failure(end);
                break;
            }
        }
    }
    assert_eq!(time, 5000);
}

#[test]
fn the_timeout_cuts_a_pause_short_and_keeps_packets_back() {
    let config = PunchConfig {
        attempts: 10,
        interval: Duration::from_secs(2),
        response_timeout: Duration::from_secs(5),
        ..PunchConfig::default()
    };
    let mut session = punch_hole(at(2000), &config);
    expect_punch(session.advance(IoEvent::Done, ms(0)), at(2000));
    expect_sleep(session.advance(IoEvent::Done, ms(0)), ms(2000));
    expect_punch(session.advance(IoEvent::Done, ms(2000)), at(2000));
    expect_sleep(session.advance(IoEvent::Done, ms(2000)), ms(2000));
    expect_punch(session.advance(IoEvent::Done, ms(4000)), at(2000));
    expect_sleep(session.advance(IoEvent::Done, ms(4000)), ms(1000));
    expect_failure(session.advance(IoEvent::Done, ms(5000)));
}

#[test]
fn the_timeout_ends_the_guessing() {
    let config = PunchConfig {
        port_prediction: true,
        port_prediction_range: 3,
        ..PunchConfig::default()
    };
    let mut session = punch_hole(at(2000), &config);
    expect_punch(session.advance(IoEvent::Done, ms(0)), at(2001));
    expect_punch(session.advance(IoEvent::Done, ms(4999)), at(2002));
    expect_failure(session.advance(IoEvent::Done, ms(5000)));
}

#[test]
fn a_late_failure_to_send_is_still_reported() {
    let mut session = punch_hole(at(2000), &PunchConfig::default());
    expect_punch(session.advance(IoEvent::Done, ms(0)), at(2000));
    assert!(matches!(
        session.advance(IoEvent::SendFailed(broken()), ms(9000)),
        PunchAction::Finish(Err(HolePunchError::Io(_)))
    ));
}

// -- Listening -------------------------------------------------------------------

#[test]
fn any_packet_of_the_peer_opens_the_hole() {
    let mut session = listening(at(2000));
    expect_receive(session.advance(packet(at(2000), b"anything"), ms(1100)), ms(1));
    expect_success(session.advance(nothing(), ms(1101)), at(2000));
}

#[test]
fn a_punch_packet_from_another_port_opens_the_hole() {
    let mut session = listening(at(2000));
    let answer = encode(&Message::PunchAck).unwrap();
    expect_receive(session.advance(packet(at(2001), &answer), ms(1100)), ms(1));
    expect_success(session.advance(nothing(), ms(1101)), at(2001));
}

#[test]
fn the_first_answer_counts() {
    let mut session = listening(at(2000));
    let answer = encode(&Message::PunchAck).unwrap();
    expect_receive(session.advance(packet(at(3000), b"garbage"), ms(1050)), ms(4950));
    expect_receive(session.advance(packet(at(2001), &answer), ms(1100)), ms(1));
    expect_receive(session.advance(packet(at(2000), &answer), ms(1100)), ms(1));
    expect_success(session.advance(nothing(), ms(1101)), at(2001));
}

#[test]
fn other_packets_of_strangers_are_ignored() {
    let mut session = listening(at(2000));
    expect_receive(session.advance(packet(at(3000), b"garbage"), ms(2000)), ms(4000));
    let heartbeat = encode(&Message::Heartbeat).unwrap();
    expect_receive(session.advance(packet(at(3000), &heartbeat), ms(3500)), ms(2500));
    expect_failure(session.advance(packet(at(3000), b"garbage"), ms(6000)));
}

#[test]
fn a_failed_read_does_not_end_the_wait() {
    let mut session = listening(at(2000));
    let failed = IoEvent::Read(RecvOutcome::Failed(broken()));
    expect_receive(session.advance(failed, ms(1500)), ms(4500));
    expect_receive(session.advance(packet(at(2000), b"x"), ms(1600)), ms(1));
}

#[test]
fn the_wait_ends_with_the_timeout() {
    let mut session = listening(at(2000));
    let failed = IoEvent::Read(RecvOutcome::Failed(broken()));
    expect_failure(session.advance(failed, ms(6000)));
}

#[test]
fn without_time_nothing_is_sent_or_awaited() {
    let config = PunchConfig {
        attempts: 1,
        response_timeout: ms(0),
        ..PunchConfig::default()
    };
    let mut session = punch_hole(at(2000), &config);
    expect_failure(session.advance(IoEvent::Done, ms(0)));
}

#[test]
fn leftovers_are_thrown_away() {
    let mut session = listening(at(2000));
    expect_receive(session.advance(packet(at(2000), b"first"), ms(1100)), ms(1));
    expect_receive(session.advance(packet(at(2000), b"second"), ms(1100)), ms(1));
    expect_receive(session.advance(packet(at(3000), b"third"), ms(9000)), ms(1));
    expect_success(session.advance(nothing(), ms(9001)), at(2000));
}

#[test]
fn a_failed_read_ends_the_throwing_away() {
    let mut session = listening(at(2000));
    expect_receive(session.advance(packet(at(2000), b"first"), ms(1100)), ms(1));
    let failed = IoEvent::Read(RecvOutcome::Failed(broken()));
    expect_success(session.advance(failed, ms(1100)), at(2000));
}
