//! What the bytes of values and messages are, byte for byte.
use vstd::arithmetic::div_mod::*;
use vstd::arithmetic::power::*;
use vstd::prelude::*;
use vstd::utf8::*;

use crate::addr::SocketAddr;
use crate::protocol::MessageModel;
use crate::wire;

verus! {

/// An integer stands in as many bytes as it is wide, and byte `i` counts the
/// `i`th power of 256.
pub proof fn law_integer_layout(n: nat, width: nat, i: nat)
    ensures
        wire::le_bytes(n, width).len() == width,
        i < width ==> wire::le_bytes(n, width)[i as int] as int == (n as int / pow(256, i)) % 256,
    decreases i,
{
    wire::lemma_le_bytes_len(n, width);
    if i < width {
        if i == 0 {
            lemma_pow0(256);
        } else {
            let j = (i - 1) as nat;
            law_integer_layout(n / 256, (width - 1) as nat, j);
            lemma_pow_positive(256, j);
            lemma_div_denominator(n as int, 256, pow(256, j));
            reveal(pow);
            assert(pow(256, i) == 256 * pow(256, j));
        }
    }
}

/// A text is the number of its UTF-8 bytes, in eight bytes, and then those bytes;
/// and so is a sequence of bytes, with the bytes themselves.
pub proof fn law_text_layout(text: Seq<char>, data: Seq<u8>)
    ensures
        wire::wire_text(text) == wire::le_bytes(encode_utf8(text).len(), 8) + encode_utf8(text),
        wire::wire_bytes(data) == wire::le_bytes(data.len(), 8) + data,
{
    reveal(wire::wire_text);
    reveal(wire::wire_bytes);
}

/// Texts stand one behind the other, each in its own layout.
pub proof fn law_texts_layout(first: Seq<Seq<char>>, second: Seq<Seq<char>>, text: Seq<char>)
    ensures
        wire::wire_texts(seq![]) == Seq::<u8>::empty(),
        wire::wire_texts(seq![text]) == wire::wire_text(text),
        wire::wire_texts(first + second) == wire::wire_texts(first) + wire::wire_texts(second),
    decreases first.len(),
{
    let none: Seq<Seq<char>> = seq![];
    assert(wire::wire_texts(none) =~= seq![]);
    assert(seq![text].skip(1) =~= none);
    assert(wire::wire_texts(seq![text]) =~= wire::wire_text(text));
    if first.len() == 0 {
        assert(first =~= none);
        assert(first + second =~= second);
        assert(wire::wire_texts(first) + wire::wire_texts(second) =~= wire::wire_texts(second));
    } else {
        law_texts_layout(first.skip(1), second, text);
        assert((first + second).skip(1) =~= first.skip(1) + second);
        assert(wire::wire_texts(first + second) =~= wire::wire_texts(first) + wire::wire_texts(
            second,
        ));
    }
}

/// An address is its family in four bytes, zero for IPv4 and one for IPv6, its
/// octets, and its port in two bytes, the lower one first.
pub proof fn law_addr_layout(addr: SocketAddr)
    ensures
        addr matches SocketAddr::V4 { octets, port } ==> wire::wire_addr(addr) == seq![
            0u8,
            0,
            0,
            0,
        ] + octets@ + seq![(port % 256) as u8, (port / 256) as u8],
        addr matches SocketAddr::V6 { octets, port, .. } ==> wire::wire_addr(addr) == seq![
            1u8,
            0,
            0,
            0,
        ] + octets@ + seq![(port % 256) as u8, (port / 256) as u8],
{
    reveal(wire::wire_addr);
    reveal_with_fuel(wire::le_bytes, 5);
    assert(wire::le_bytes(0, 4) =~= seq![0u8, 0, 0, 0]);
    assert(wire::le_bytes(1, 4) =~= seq![1u8, 0, 0, 0]);
    let port = addr.port();
    assert(wire::le_bytes(port as nat, 2) =~= seq![(port % 256) as u8, (port / 256) as u8]);
}

/// A message is the number of its kind in four bytes, and then its fields in
/// their order.
pub proof fn law_message_layout(m: MessageModel)
    ensures
        m.wire() == match m {
            MessageModel::Register { peer_id } => seq![0u8, 0, 0, 0] + wire::wire_text(peer_id),
            MessageModel::RegisterAck { public_addr } => seq![1u8, 0, 0, 0] + wire::wire_addr(
                public_addr,
            ),
            MessageModel::ConnectRequest { target_peer_id, requester_peer_id } => seq![
                2u8,
                0,
                0,
                0,
            ] + wire::wire_text(target_peer_id) + wire::wire_text(requester_peer_id),
            MessageModel::ConnectResponse { peer_addr, peer_id } => seq![3u8, 0, 0, 0]
                + wire::wire_addr(peer_addr) + wire::wire_text(peer_id),
            MessageModel::PunchRequest { from_peer_id, from_addr } => seq![4u8, 0, 0, 0]
                + wire::wire_text(from_peer_id) + wire::wire_addr(from_addr),
            MessageModel::PunchAck => seq![5u8, 0, 0, 0],
            MessageModel::Heartbeat => seq![6u8, 0, 0, 0],
            MessageModel::ListPeers => seq![7u8, 0, 0, 0],
            MessageModel::PeerList { peers } => seq![8u8, 0, 0, 0] + wire::le_bytes(
                peers.len(),
                8,
            ) + wire::wire_texts(peers),
            MessageModel::Error { message } => seq![9u8, 0, 0, 0] + wire::wire_text(message),
            MessageModel::RelayData { target_peer_id, data } => seq![10u8, 0, 0, 0]
                + wire::wire_text(target_peer_id) + wire::wire_bytes(data),
        },
{
    reveal_with_fuel(wire::le_bytes, 5);
    let tag = m.tag();
    assert(wire::le_bytes(tag, 4) =~= seq![tag as u8, 0, 0, 0]);
    assert(m.wire() =~= seq![tag as u8, 0, 0, 0] + m.body());
}

/// A message can be encoded exactly if every length in it is below the number of
/// values that eight bytes hold.
pub proof fn law_lengths_that_fit(m: MessageModel)
    ensures
        m.lengths_fit() <==> match m {
            MessageModel::Register { peer_id } => short(encode_utf8(peer_id)),
            MessageModel::ConnectRequest { target_peer_id, requester_peer_id } => short(
                encode_utf8(target_peer_id),
            ) && short(encode_utf8(requester_peer_id)),
            MessageModel::ConnectResponse { peer_id, .. } => short(encode_utf8(peer_id)),
            MessageModel::PunchRequest { from_peer_id, .. } => short(encode_utf8(from_peer_id)),
            MessageModel::PeerList { peers } => {
                &&& peers.len() < 0x1_0000_0000_0000_0000
                &&& forall|i: int| 0 <= i < peers.len() ==> short(encode_utf8(#[trigger] peers[i]))
            },
            MessageModel::Error { message } => short(encode_utf8(message)),
            MessageModel::RelayData { target_peer_id, data } => short(encode_utf8(target_peer_id))
                && short(data),
            _ => true,
        },
{
    wire::lemma_byte_ranges();
    if let MessageModel::PeerList { peers } = m {
        if m.lengths_fit() {
            assert forall|i: int| 0 <= i < peers.len() implies short(
                encode_utf8(#[trigger] peers[i]),
            ) by {
                assert(wire::text_fits(peers[i]));
            }
        }
    }
}

/// Whether the length of some bytes can stand in eight bytes.
pub open spec fn short(data: Seq<u8>) -> bool {
    data.len() < 0x1_0000_0000_0000_0000
}

/// All of a message travels but the flow information and the scope of an IPv6
/// address in it.
pub proof fn law_what_travels(m: MessageModel, addr: SocketAddr)
    ensures
        addr is V4 ==> wire::addr_sent(addr) == addr,
        addr matches SocketAddr::V6 { octets, port, .. } ==> wire::addr_sent(addr) == (
        SocketAddr::V6 { octets, port, flowinfo: 0, scope_id: 0 }),
        m.sent() == match m {
            MessageModel::RegisterAck { public_addr } => MessageModel::RegisterAck {
                public_addr: wire::addr_sent(public_addr),
            },
            MessageModel::ConnectResponse { peer_addr, peer_id } => MessageModel::ConnectResponse {
                peer_addr: wire::addr_sent(peer_addr),
                peer_id,
            },
            MessageModel::PunchRequest { from_peer_id, from_addr } => MessageModel::PunchRequest {
                from_peer_id,
                from_addr: wire::addr_sent(from_addr),
            },
            _ => m,
        },
{
}

} // verus!
