use crab_tunnel::protocol::{datagram, decode, encode};
use crab_tunnel::{Message, SocketAddr};
use serde::ser::{Serialize, SerializeStructVariant, Serializer};

fn v4(a: u8, b: u8, c: u8, d: u8, port: u16) -> SocketAddr {
    SocketAddr::V4 { octets: [a, b, c, d], port }
}

fn v6(octets: [u8; 16], port: u16) -> SocketAddr {
    SocketAddr::V6 { octets, port, flowinfo: 0, scope_id: 0 }
}

const LOCALHOST6: [u8; 16] = [0, 0, 0, 0, 0, 0, 0, 0, 0, 0, 0, 0, 0, 0, 0, 1];
const DOC6: [u8; 16] = [0x20, 0x01, 0x0d, 0xb8, 0, 0, 0, 0, 0, 0, 0, 0, 0, 0, 0, 1];

#[test]
fn test_roundtrip_register() {
    let msg = Message::Register { peer_id: "alice".into() };
    let bytes = encode(&msg).unwrap();
    let decoded = decode(&bytes).unwrap();
    assert_eq!(decoded, msg);
}

#[test]
fn test_roundtrip_register_ack() {
    let msg = Message::RegisterAck { public_addr: v4(192, 168, 1, 100, 54321) };
    let bytes = encode(&msg).unwrap();
    let decoded = decode(&bytes).unwrap();
    assert_eq!(decoded, msg);
}

#[test]
fn test_roundtrip_connect_request() {
    let msg = Message::ConnectRequest {
        target_peer_id: "bob".into(),
        requester_peer_id: "alice".into(),
    };
    let bytes = encode(&msg).unwrap();
    let decoded = decode(&bytes).unwrap();
    assert_eq!(decoded, msg);
}

#[test]
fn test_roundtrip_connect_response() {
    let msg = Message::ConnectResponse {
        peer_addr: v4(10, 0, 0, 1, 9000),
        peer_id: "bob".into(),
    };
    let bytes = encode(&msg).unwrap();
    let decoded = decode(&bytes).unwrap();
    assert_eq!(decoded, msg);
}

#[test]
fn test_roundtrip_punch_request() {
    let msg = Message::PunchRequest {
        from_peer_id: "charlie".into(),
        from_addr: v4(10, 0, 0, 2, 1234),
    };
    let bytes = encode(&msg).unwrap();
    let decoded = decode(&bytes).unwrap();
    assert_eq!(decoded, msg);
}

#[test]
fn test_roundtrip_all_simple() {
    for msg in [
        Message::PunchAck,
        Message::Heartbeat,
        Message::ListPeers,
        Message::Error { message: "something went wrong".into() },
        Message::PeerList { peers: vec!["alice".into(), "bob".into()] },
        Message::RelayData { target_peer_id: "dave".into(), data: vec![1, 2, 3, 4] },
    ] {
        let bytes = encode(&msg).unwrap();
        let decoded = decode(&bytes).unwrap();
        assert_eq!(decoded, msg, "round-trip failed for {msg:?}");
    }
}

#[test]
fn test_encode_invalid_data() {
    assert!(decode(b"").is_err());
    assert!(decode(b"garbage").is_err());
}

#[test]
fn test_large_peer_id() {
    let peer_id = "a".repeat(4096);
    let msg = Message::Register { peer_id };
    let bytes = encode(&msg).unwrap();
    let decoded = decode(&bytes).unwrap();
    assert_eq!(decoded, msg);
}

#[test]
fn test_large_relay_data() {
    let data = vec![0xABu8; 65536];
    let msg = Message::RelayData { target_peer_id: "big-data-peer".into(), data };
    let bytes = encode(&msg).unwrap();
    let decoded = decode(&bytes).unwrap();
    assert_eq!(decoded, msg);
}

#[test]
fn test_ipv6_addresses() {
    let msg = Message::RegisterAck { public_addr: v6(LOCALHOST6, 8080) };
    let bytes = encode(&msg).unwrap();
    let decoded = decode(&bytes).unwrap();
    assert_eq!(decoded, msg);

    let msg = Message::PunchRequest {
        from_peer_id: "ipv6-peer".into(),
        from_addr: v6(DOC6, 9000),
    };
    let bytes = encode(&msg).unwrap();
    let decoded = decode(&bytes).unwrap();
    assert_eq!(decoded, msg);
}

// -- Exact bytes ---------------------------------------------------------------

#[test]
fn messages_without_fields_are_their_tags() {
    assert_eq!(encode(&Message::PunchAck).unwrap(), vec![5u8, 0, 0, 0]);
    assert_eq!(encode(&Message::Heartbeat).unwrap(), vec![6u8, 0, 0, 0]);
    assert_eq!(encode(&Message::ListPeers).unwrap(), vec![7u8, 0, 0, 0]);
}

#[test]
fn a_text_is_led_by_its_length_in_bytes() {
    let msg = Message::Register { peer_id: "zoé".into() };
    assert_eq!(
        encode(&msg).unwrap(),
        vec![0u8, 0, 0, 0, 4, 0, 0, 0, 0, 0, 0, 0, b'z', b'o', 0xC3, 0xA9],
    );
}

#[test]
fn an_ipv4_address_takes_ten_bytes() {
    let msg = Message::RegisterAck { public_addr: v4(192, 168, 1, 100, 54321) };
    assert_eq!(
        encode(&msg).unwrap(),
        vec![1u8, 0, 0, 0, 0, 0, 0, 0, 192, 168, 1, 100, 0x31, 0xD4],
    );
}

#[test]
fn an_ipv6_address_takes_twenty_two_bytes() {
    let msg = Message::RegisterAck { public_addr: v6(DOC6, 9000) };
    let mut expected = vec![1u8, 0, 0, 0, 1, 0, 0, 0];
    expected.extend_from_slice(&DOC6);
    expected.extend_from_slice(&[0x28, 0x23]);
    assert_eq!(encode(&msg).unwrap(), expected);
}

#[test]
fn relayed_data_stands_behind_its_length() {
    let msg = Message::RelayData { target_peer_id: "d".into(), data: vec![9, 8, 7] };
    assert_eq!(
        encode(&msg).unwrap(),
        vec![
            10u8, 0, 0, 0, 1, 0, 0, 0, 0, 0, 0, 0, b'd', 3, 0, 0, 0, 0, 0, 0, 0, 9, 8, 7,
        ],
    );
}

#[test]
fn a_datagram_carries_the_encoding() {
    let to = v4(10, 0, 0, 1, 9000);
    let packet = datagram(to, &Message::Heartbeat);
    assert_eq!(packet.to, to);
    assert_eq!(packet.bytes, vec![6u8, 0, 0, 0]);
}

// -- The same bytes as bincode writes for whole values -----------------------------

enum Whole {
    Register { peer_id: String },
    PunchAck,
    PeerList { peers: Vec<String> },
    RelayData { target_peer_id: String, data: Vec<u8> },
}

impl Serialize for Whole {
    fn serialize<S: Serializer>(&self, serializer: S) -> Result<S::Ok, S::Error> {
        match self {
            Whole::Register { peer_id } => {
                let mut state = serializer.serialize_struct_variant("Message", 0, "Register", 1)?;
                state.serialize_field("peer_id", peer_id)?;
                state.end()
            }
            Whole::PunchAck => serializer.serialize_unit_variant("Message", 5, "PunchAck"),
            Whole::PeerList { peers } => {
                let mut state = serializer.serialize_struct_variant("Message", 8, "PeerList", 1)?;
                state.serialize_field("peers", peers)?;
                state.end()
            }
            Whole::RelayData { target_peer_id, data } => {
                let mut state =
                    serializer.serialize_struct_variant("Message", 10, "RelayData", 2)?;
                state.serialize_field("target_peer_id", target_peer_id)?;
                state.serialize_field("data", data)?;
                state.end()
            }
        }
    }
}

#[test]
fn the_encoding_is_that_of_the_whole_enum() {
    assert_eq!(
        encode(&Message::Register { peer_id: "zoé".into() }).unwrap(),
        bincode::serialize(&Whole::Register { peer_id: "zoé".into() }).unwrap(),
    );
    assert_eq!(
        encode(&Message::PunchAck).unwrap(),
        bincode::serialize(&Whole::PunchAck).unwrap(),
    );
    let peers: Vec<String> = vec!["".into(), "alice".into(), "bob".into()];
    assert_eq!(
        encode(&Message::PeerList { peers: peers.clone() }).unwrap(),
        bincode::serialize(&Whole::PeerList { peers }).unwrap(),
    );
    assert_eq!(
        encode(&Message::RelayData { target_peer_id: "d".into(), data: vec![0, 255, 7] }).unwrap(),
        bincode::serialize(&Whole::RelayData {
            target_peer_id: "d".into(),
            data: vec![0, 255, 7],
        })
        .unwrap(),
    );
}

#[test]
fn the_encoding_is_that_of_the_fields_in_a_row() {
    assert_eq!(
        encode(&Message::ConnectRequest {
            target_peer_id: "bob".into(),
            requester_peer_id: "alice".into(),
        })
        .unwrap(),
        bincode::serialize(&(2u32, "bob", "alice")).unwrap(),
    );
    assert_eq!(
        encode(&Message::ConnectResponse {
            peer_addr: v4(10, 0, 0, 1, 9000),
            peer_id: "bob".into(),
        })
        .unwrap(),
        bincode::serialize(&(3u32, 0u32, [10u8, 0, 0, 1], 9000u16, "bob")).unwrap(),
    );
    assert_eq!(
        encode(&Message::PunchRequest {
            from_peer_id: "charlie".into(),
            from_addr: v6(DOC6, 1234),
        })
        .unwrap(),
        bincode::serialize(&(4u32, "charlie", 1u32, DOC6, 1234u16)).unwrap(),
    );
    assert_eq!(
        encode(&Message::Error { message: "oh".into() }).unwrap(),
        bincode::serialize(&(9u32, "oh")).unwrap(),
    );
}

// -- What decoding accepts ---------------------------------------------------------

#[test]
fn what_follows_a_message_is_ignored() {
    let msg = Message::Register { peer_id: "alice".into() };
    let mut bytes = encode(&msg).unwrap();
    bytes.extend_from_slice(b"trailing");
    assert_eq!(decode(&bytes).unwrap(), msg);
    assert_eq!(decode(&[5, 0, 0, 0, 1, 2, 3]).unwrap(), Message::PunchAck);
}

#[test]
fn every_proper_prefix_of_a_message_is_refused() {
    for msg in [
        Message::Register { peer_id: "alice".into() },
        Message::RegisterAck { public_addr: v4(1, 2, 3, 4, 5) },
        Message::ConnectRequest { target_peer_id: "b".into(), requester_peer_id: "a".into() },
        Message::ConnectResponse { peer_addr: v6(DOC6, 5), peer_id: "b".into() },
        Message::PunchRequest { from_peer_id: "c".into(), from_addr: v4(1, 2, 3, 4, 5) },
        Message::PunchAck,
        Message::PeerList { peers: vec!["alice".into(), "bob".into()] },
        Message::Error { message: "no".into() },
        Message::RelayData { target_peer_id: "d".into(), data: vec![1, 2, 3] },
    ] {
        let bytes = encode(&msg).unwrap();
        for end in 0..bytes.len() {
            assert!(decode(&bytes[..end]).is_err(), "{end} bytes of {msg:?}");
        }
        assert_eq!(decode(&bytes).unwrap(), msg);
    }
}

#[test]
fn an_unknown_tag_is_refused() {
    let error = decode(&[11, 0, 0, 0]).unwrap_err();
    assert_eq!(
        error.to_string(),
        "invalid value: integer `11`, expected variant index 0 <= i < 11",
    );
    assert!(decode(&[255, 255, 255, 255, 0, 0]).is_err());
}

#[test]
fn an_unknown_address_family_is_refused() {
    let error = decode(&[1, 0, 0, 0, 2, 0, 0, 0, 1, 2, 3, 4, 5, 6]).unwrap_err();
    assert_eq!(error.to_string(), "invalid value: integer `2`, expected `V4` or `V6`");
}

#[test]
fn a_text_that_is_not_utf8_is_refused() {
    assert!(decode(&[0, 0, 0, 0, 2, 0, 0, 0, 0, 0, 0, 0, 0xC3, 0x28]).is_err());
    assert!(decode(&[0, 0, 0, 0, 2, 0, 0, 0, 0, 0, 0, 0, 0xC3, 0xA9]).is_ok());
}

#[test]
fn a_length_beyond_the_end_is_refused() {
    assert!(decode(&[0, 0, 0, 0, 255, 255, 255, 255, 255, 255, 255, 255, b'a']).is_err());
    assert!(decode(&[8, 0, 0, 0, 255, 255, 255, 255, 255, 255, 255, 255]).is_err());
    assert!(decode(&[
        10, 0, 0, 0, 0, 0, 0, 0, 0, 0, 0, 0, 255, 255, 255, 255, 255, 255, 255, 127, 1,
    ])
    .is_err());
}

#[test]
fn the_scope_of_an_ipv6_address_does_not_travel() {
    let scoped = SocketAddr::V6 { octets: DOC6, port: 9000, flowinfo: 3, scope_id: 4 };
    let bytes = encode(&Message::RegisterAck { public_addr: scoped }).unwrap();
    assert_eq!(
        decode(&bytes).unwrap(),
        Message::RegisterAck { public_addr: v6(DOC6, 9000) },
    );
}

#[test]
fn encoding_gives_back_the_bytes_that_were_decoded() {
    let bytes = vec![4u8, 0, 0, 0, 1, 0, 0, 0, 0, 0, 0, 0, b'x', 0, 0, 0, 0, 9, 8, 7, 6, 1, 2];
    let msg = decode(&bytes).unwrap();
    assert_eq!(
        msg,
        Message::PunchRequest { from_peer_id: "x".into(), from_addr: v4(9, 8, 7, 6, 513) },
    );
    assert_eq!(encode(&msg).unwrap(), bytes);
}

#[test]
fn different_messages_have_different_encodings() {
    let a = encode(&Message::ConnectRequest {
        target_peer_id: "ab".into(),
        requester_peer_id: "c".into(),
    })
    .unwrap();
    let b = encode(&Message::ConnectRequest {
        target_peer_id: "a".into(),
        requester_peer_id: "bc".into(),
    })
    .unwrap();
    assert_ne!(a, b);
}
