use crab_tunnel::{Duration, SocketAddr};

#[test]
fn durations_of_one_length_are_equal() {
    assert_eq!(Duration::from_millis(1000), Duration::from_secs(1));
    assert_eq!(Duration::new(1, 500_000_000), Duration::from_millis(1500));
    assert_eq!(Duration::new(1, 1_000_000_000), Duration::from_secs(2));
    assert_ne!(Duration::from_millis(1), Duration::from_millis(2));
}

#[test]
fn a_duration_falls_apart_into_seconds_and_nanoseconds() {
    let span = Duration::from_millis(2345);
    assert_eq!(span.as_secs(), 2);
    assert_eq!(span.subsec_nanos(), 345_000_000);
    let longest = Duration::new(u64::MAX, 999_999_999);
    assert_eq!(longest.as_secs(), u64::MAX);
    assert_eq!(longest.subsec_nanos(), 999_999_999);
}

#[test]
fn durations_are_compared_and_subtracted() {
    let short = Duration::from_millis(20);
    let long = Duration::from_millis(50);
    assert!(short.is_shorter_than(&long));
    assert!(!long.is_shorter_than(&short));
    assert!(!short.is_shorter_than(&short));
    assert_eq!(long.saturating_sub(short), Duration::from_millis(30));
    assert_eq!(short.saturating_sub(long), Duration::from_secs(0));
}

#[test]
fn an_address_keeps_its_host_under_another_port() {
    let addr = SocketAddr::V4 { octets: [127, 0, 0, 1], port: 80 };
    let moved = addr.with_port(81);
    assert_eq!(moved, SocketAddr::V4 { octets: [127, 0, 0, 1], port: 81 });
    assert_eq!(moved.port(), 81);
    assert_eq!(moved.with_port(80), addr);
    let six = SocketAddr::V6 { octets: [7; 16], port: 80, flowinfo: 1, scope_id: 2 };
    assert_eq!(
        six.with_port(90),
        SocketAddr::V6 { octets: [7; 16], port: 90, flowinfo: 1, scope_id: 2 },
    );
}

#[test]
fn addresses_differ_in_each_of_their_parts() {
    let addr = SocketAddr::V4 { octets: [127, 0, 0, 1], port: 80 };
    assert_ne!(addr, SocketAddr::V4 { octets: [127, 0, 0, 2], port: 80 });
    assert_ne!(addr, SocketAddr::V4 { octets: [127, 0, 0, 1], port: 81 });
    let six = SocketAddr::V6 { octets: [7; 16], port: 80, flowinfo: 1, scope_id: 2 };
    assert_ne!(six, addr);
    assert_ne!(six, SocketAddr::V6 { octets: [8; 16], port: 80, flowinfo: 1, scope_id: 2 });
    assert_ne!(six, SocketAddr::V6 { octets: [7; 16], port: 80, flowinfo: 0, scope_id: 2 });
    assert_ne!(six, SocketAddr::V6 { octets: [7; 16], port: 80, flowinfo: 1, scope_id: 0 });
}
