//! The messages that peers and the rendezvous server exchange, and their form
//! as datagrams.
use vstd::prelude::*;

use crate::addr::SocketAddr;
use crate::codec;
use crate::wire;

verus! {

/// A message between a peer and the rendezvous server, or between two peers.
#[derive(Debug, Clone, PartialEq)]
pub enum Message {
    Register { peer_id: String },
    RegisterAck { public_addr: SocketAddr },
    ConnectRequest { target_peer_id: String, requester_peer_id: String },
    ConnectResponse { peer_addr: SocketAddr, peer_id: String },
    PunchRequest { from_peer_id: String, from_addr: SocketAddr },
    PunchAck,
    Heartbeat,
    ListPeers,
    PeerList { peers: Vec<String> },
    Error { message: String },
    RelayData { target_peer_id: String, data: Vec<u8> },
}

/// What a message says, over mathematical sequences.
#[verifier::ext_equal]
pub enum MessageModel {
    Register { peer_id: Seq<char> },
    RegisterAck { public_addr: SocketAddr },
    ConnectRequest { target_peer_id: Seq<char>, requester_peer_id: Seq<char> },
    ConnectResponse { peer_addr: SocketAddr, peer_id: Seq<char> },
    PunchRequest { from_peer_id: Seq<char>, from_addr: SocketAddr },
    PunchAck,
    Heartbeat,
    ListPeers,
    PeerList { peers: Seq<Seq<char>> },
    Error { message: Seq<char> },
    RelayData { target_peer_id: Seq<char>, data: Seq<u8> },
}

/// The texts of a list.
pub open spec fn texts(list: Seq<String>) -> Seq<Seq<char>> {
    list.map_values(|text: String| text@)
}

impl View for Message {
    type V = MessageModel;

    open spec fn view(&self) -> MessageModel {
        match *self {
            Message::Register { peer_id } => MessageModel::Register { peer_id: peer_id@ },
            Message::RegisterAck { public_addr } => MessageModel::RegisterAck { public_addr },
            Message::ConnectRequest {
                target_peer_id,
                requester_peer_id,
            } => MessageModel::ConnectRequest {
                target_peer_id: target_peer_id@,
                requester_peer_id: requester_peer_id@,
            },
            Message::ConnectResponse { peer_addr, peer_id } => MessageModel::ConnectResponse {
                peer_addr,
                peer_id: peer_id@,
            },
            Message::PunchRequest { from_peer_id, from_addr } => MessageModel::PunchRequest {
                from_peer_id: from_peer_id@,
                from_addr,
            },
            Message::PunchAck => MessageModel::PunchAck,
            Message::Heartbeat => MessageModel::Heartbeat,
            Message::ListPeers => MessageModel::ListPeers,
            Message::PeerList { peers } => MessageModel::PeerList { peers: texts(peers@) },
            Message::Error { message } => MessageModel::Error { message: message@ },
            Message::RelayData { target_peer_id, data } => MessageModel::RelayData {
                target_peer_id: target_peer_id@,
                data: data@,
            },
        }
    }
}

impl MessageModel {
    /// The number that marks this kind of message.
    pub open spec fn tag(self) -> nat {
        match self {
            MessageModel::Register { .. } => 0,
            MessageModel::RegisterAck { .. } => 1,
            MessageModel::ConnectRequest { .. } => 2,
            MessageModel::ConnectResponse { .. } => 3,
            MessageModel::PunchRequest { .. } => 4,
            MessageModel::PunchAck => 5,
            MessageModel::Heartbeat => 6,
            MessageModel::ListPeers => 7,
            MessageModel::PeerList { .. } => 8,
            MessageModel::Error { .. } => 9,
            MessageModel::RelayData { .. } => 10,
        }
    }

    /// The fields, one behind the other.
    pub open spec fn body(self) -> Seq<u8> {
        match self {
            MessageModel::Register { peer_id } => wire::wire_text(peer_id),
            MessageModel::RegisterAck { public_addr } => wire::wire_addr(public_addr),
            MessageModel::ConnectRequest { target_peer_id, requester_peer_id } => wire::wire_text(
                target_peer_id,
            ) + wire::wire_text(requester_peer_id),
            MessageModel::ConnectResponse { peer_addr, peer_id } => wire::wire_addr(peer_addr)
                + wire::wire_text(peer_id),
            MessageModel::PunchRequest { from_peer_id, from_addr } => wire::wire_text(from_peer_id)
                + wire::wire_addr(from_addr),
            MessageModel::PunchAck => seq![],
            MessageModel::Heartbeat => seq![],
            MessageModel::ListPeers => seq![],
            MessageModel::PeerList { peers } => wire::le_bytes(peers.len(), 8) + wire::wire_texts(
                peers,
            ),
            MessageModel::Error { message } => wire::wire_text(message),
            MessageModel::RelayData { target_peer_id, data } => wire::wire_text(target_peer_id)
                + wire::wire_bytes(data),
        }
    }

    /// The message as bytes: its tag in four bytes, then its fields.
    pub open spec fn wire(self) -> Seq<u8> {
        wire::le_bytes(self.tag(), 4) + self.body()
    }

    /// Whether each length in this message can stand in its eight bytes.
    pub open spec fn lengths_fit(self) -> bool {
        match self {
            MessageModel::Register { peer_id } => wire::text_fits(peer_id),
            MessageModel::ConnectRequest { target_peer_id, requester_peer_id } => wire::text_fits(
                target_peer_id,
            ) && wire::text_fits(requester_peer_id),
            MessageModel::ConnectResponse { peer_id, .. } => wire::text_fits(peer_id),
            MessageModel::PunchRequest { from_peer_id, .. } => wire::text_fits(from_peer_id),
            MessageModel::PeerList { peers } => peers.len() < wire::byte_range(8)
                && wire::texts_fit(peers),
            MessageModel::Error { message } => wire::text_fits(message),
            MessageModel::RelayData { target_peer_id, data } => wire::text_fits(target_peer_id)
                && wire::fits(data),
            _ => true,
        }
    }

    /// What is left of this message when it travels: the address in it, if it
    /// is an IPv6 address, loses its flow information and its scope.
    pub open spec fn sent(self) -> MessageModel {
        match self {
            MessageModel::RegisterAck { public_addr } => MessageModel::RegisterAck {
                public_addr: wire::addr_sent(public_addr),
            },
            MessageModel::ConnectResponse { peer_addr, peer_id } => MessageModel::ConnectResponse {
                peer_addr: wire::addr_sent(peer_addr),
                peer_id,
            },
            MessageModel::PunchRequest { from_peer_id, from_addr } => MessageModel::PunchRequest {
                from_peer_id,
                from_addr: wire::addr_sent(from_addr),
            },
            _ => self,
        }
    }
}

/// Whether `bytes` begin with the message `m`.
pub open spec fn carries(bytes: Seq<u8>, m: MessageModel) -> bool {
    m.lengths_fit() && m.sent() == m && m.wire().is_prefix_of(bytes)
}

/// The message that `bytes` begin with, if there is one.
pub open spec fn decoded(bytes: Seq<u8>) -> Option<MessageModel> {
    if exists|m: MessageModel| carries(bytes, m) {
        Some(choose|m: MessageModel| carries(bytes, m))
    } else {
        None
    }
}

/// Reads the fields of the message with the given tag, and says what follows.
spec fn take_body(tag: nat, bytes: Seq<u8>) -> Option<(MessageModel, Seq<u8>)> {
    if tag == 0 {
        match wire::take_text(bytes) {
            Some((peer_id, end)) => Some((MessageModel::Register { peer_id }, end)),
            None => None,
        }
    } else if tag == 1 {
        match wire::take_addr(bytes) {
            Some((public_addr, end)) => Some((MessageModel::RegisterAck { public_addr }, end)),
            None => None,
        }
    } else if tag == 2 {
        match wire::take_text(bytes) {
            Some((target_peer_id, rest)) => match wire::take_text(rest) {
                Some((requester_peer_id, end)) => Some(
                    (MessageModel::ConnectRequest { target_peer_id, requester_peer_id }, end),
                ),
                None => None,
            },
            None => None,
        }
    } else if tag == 3 {
        match wire::take_addr(bytes) {
            Some((peer_addr, rest)) => match wire::take_text(rest) {
                Some((peer_id, end)) => Some(
                    (MessageModel::ConnectResponse { peer_addr, peer_id }, end),
                ),
                None => None,
            },
            None => None,
        }
    } else if tag == 4 {
        match wire::take_text(bytes) {
            Some((from_peer_id, rest)) => match wire::take_addr(rest) {
                Some((from_addr, end)) => Some(
                    (MessageModel::PunchRequest { from_peer_id, from_addr }, end),
                ),
                None => None,
            },
            None => None,
        }
    } else if tag == 5 {
        Some((MessageModel::PunchAck, bytes))
    } else if tag == 6 {
        Some((MessageModel::Heartbeat, bytes))
    } else if tag == 7 {
        Some((MessageModel::ListPeers, bytes))
    } else if tag == 8 {
        match wire::take_int(bytes, 8) {
            Some((count, rest)) => match wire::take_texts(rest, count) {
                Some((peers, end)) => Some((MessageModel::PeerList { peers }, end)),
                None => None,
            },
            None => None,
        }
    } else if tag == 9 {
        match wire::take_text(bytes) {
            Some((message, end)) => Some((MessageModel::Error { message }, end)),
            None => None,
        }
    } else if tag == 10 {
        match wire::take_text(bytes) {
            Some((target_peer_id, rest)) => match wire::take_bytes(rest) {
                Some((data, end)) => Some((MessageModel::RelayData { target_peer_id, data }, end)),
                None => None,
            },
            None => None,
        }
    } else {
        None
    }
}

#[verifier::rlimit(40)]
#[verifier::spinoff_prover]
proof fn lemma_take_body_of_wire(m: MessageModel, rest: Seq<u8>)
    requires
        m.lengths_fit(),
        m.sent() == m,
    ensures
        take_body(m.tag(), m.body() + rest) == Some((m, rest)),
{
    match m {
        MessageModel::Register { peer_id } => {
            wire::lemma_take_text_of_wire(peer_id, rest);
        },
        MessageModel::RegisterAck { public_addr } => {
            wire::lemma_take_addr_of_wire(public_addr, rest);
        },
        MessageModel::ConnectRequest { target_peer_id, requester_peer_id } => {
            let tail = wire::wire_text(requester_peer_id) + rest;
            assert(m.body() + rest =~= wire::wire_text(target_peer_id) + tail);
            wire::lemma_take_text_of_wire(target_peer_id, tail);
            wire::lemma_take_text_of_wire(requester_peer_id, rest);
        },
        MessageModel::ConnectResponse { peer_addr, peer_id } => {
            let tail = wire::wire_text(peer_id) + rest;
            assert(m.body() + rest =~= wire::wire_addr(peer_addr) + tail);
            wire::lemma_take_addr_of_wire(peer_addr, tail);
            wire::lemma_take_text_of_wire(peer_id, rest);
        },
        MessageModel::PunchRequest { from_peer_id, from_addr } => {
            let tail = wire::wire_addr(from_addr) + rest;
            assert(m.body() + rest =~= wire::wire_text(from_peer_id) + tail);
            wire::lemma_take_text_of_wire(from_peer_id, tail);
            wire::lemma_take_addr_of_wire(from_addr, rest);
        },
        MessageModel::PeerList { peers } => {
            let tail = wire::wire_texts(peers) + rest;
            assert(m.body() + rest =~= wire::le_bytes(peers.len(), 8) + tail);
            wire::lemma_take_int_of_bytes(peers.len(), 8, tail);
            wire::lemma_take_texts_of_wire(peers, rest);
        },
        MessageModel::Error { message } => {
            wire::lemma_take_text_of_wire(message, rest);
        },
        MessageModel::RelayData { target_peer_id, data } => {
            let tail = wire::wire_bytes(data) + rest;
            assert(m.body() + rest =~= wire::wire_text(target_peer_id) + tail);
            wire::lemma_take_text_of_wire(target_peer_id, tail);
            wire::lemma_take_bytes_of_wire(data, rest);
        },
        _ => {
            assert(m.body() + rest =~= rest);
        },
    }
}

#[verifier::rlimit(40)]
#[verifier::spinoff_prover]
proof fn lemma_wire_of_take_body(tag: nat, bytes: Seq<u8>)
    ensures
        take_body(tag, bytes) matches Some((m, rest)) ==> m.tag() == tag && m.lengths_fit()
            && m.sent() == m && bytes == m.body() + rest,
{
    if tag == 1 || tag == 3 {
        wire::lemma_wire_of_take_addr(bytes);
        if let Some((_, rest)) = wire::take_addr(bytes) {
            wire::lemma_wire_of_take_text(rest);
        }
    } else if tag == 2 || tag == 4 || tag == 10 {
        wire::lemma_wire_of_take_text(bytes);
        if let Some((_, rest)) = wire::take_text(bytes) {
            if tag == 2 {
                wire::lemma_wire_of_take_text(rest);
            } else if tag == 4 {
                wire::lemma_wire_of_take_addr(rest);
            } else {
                wire::lemma_wire_of_take_bytes(rest);
            }
        }
    } else if tag == 8 {
        wire::lemma_bytes_of_take_int(bytes, 8);
        if let Some((count, rest)) = wire::take_int(bytes, 8) {
            wire::lemma_wire_of_take_texts(rest, count);
        }
    } else if tag == 0 || tag == 9 {
        wire::lemma_wire_of_take_text(bytes);
    }
    if let Some((m, end)) = take_body(tag, bytes) {
        assert(bytes =~= m.body() + end);
    }
}

/// Reads a message, and says what follows.
spec fn take_message(bytes: Seq<u8>) -> Option<(MessageModel, Seq<u8>)> {
    match wire::take_int(bytes, 4) {
        Some((tag, rest)) => take_body(tag, rest),
        None => None,
    }
}

/// Reading from the front finds the message that the bytes begin with.
proof fn lemma_take_message(bytes: Seq<u8>)
    ensures
        match take_message(bytes) {
            Some((m, _)) => carries(bytes, m) && decoded(bytes) == Some(m),
            None => decoded(bytes) is None,
        },
        forall|m: MessageModel|
            carries(bytes, m) ==> (take_message(bytes) matches Some((n, _)) && n == m),
{
    assert forall|m: MessageModel| carries(bytes, m) implies take_message(bytes) matches Some(
        (n, _),
    ) && n == m by {
        let rest = bytes.skip(m.wire().len() as int);
        assert(bytes =~= m.wire() + rest);
        assert(bytes =~= wire::le_bytes(m.tag(), 4) + (m.body() + rest));
        wire::lemma_byte_ranges();
        wire::lemma_take_int_of_bytes(m.tag(), 4, m.body() + rest);
        lemma_take_body_of_wire(m, rest);
    }
    if let Some((m, end)) = take_message(bytes) {
        wire::lemma_bytes_of_take_int(bytes, 4);
        let (tag, rest) = wire::take_int(bytes, 4)->0;
        lemma_wire_of_take_body(tag, rest);
        assert(bytes =~= m.wire() + end);
        assert(carries(bytes, m));
    }
}

/// Encodes a message. This never fails.
pub fn encode(msg: &Message) -> (bytes: Result<Vec<u8>, bincode::Error>)
    ensures
        bytes is Ok,
        bytes->Ok_0@ == msg@.wire(),
        msg@.lengths_fit(),
{
    let mut out: Vec<u8> = Vec::new();
    match msg {
        Message::Register { peer_id } => {
            codec::put_u32(&mut out, 0)?;
            codec::put_text(&mut out, peer_id.as_str())?;
        },
        Message::RegisterAck { public_addr } => {
            codec::put_u32(&mut out, 1)?;
            codec::put_addr(&mut out, *public_addr)?;
        },
        Message::ConnectRequest { target_peer_id, requester_peer_id } => {
            codec::put_u32(&mut out, 2)?;
            codec::put_text(&mut out, target_peer_id.as_str())?;
            codec::put_text(&mut out, requester_peer_id.as_str())?;
        },
        Message::ConnectResponse { peer_addr, peer_id } => {
            codec::put_u32(&mut out, 3)?;
            codec::put_addr(&mut out, *peer_addr)?;
            codec::put_text(&mut out, peer_id.as_str())?;
        },
        Message::PunchRequest { from_peer_id, from_addr } => {
            codec::put_u32(&mut out, 4)?;
            codec::put_text(&mut out, from_peer_id.as_str())?;
            codec::put_addr(&mut out, *from_addr)?;
        },
        Message::PunchAck => {
            codec::put_u32(&mut out, 5)?;
        },
        Message::Heartbeat => {
            codec::put_u32(&mut out, 6)?;
        },
        Message::ListPeers => {
            codec::put_u32(&mut out, 7)?;
        },
        Message::PeerList { peers } => {
            proof {
                wire::lemma_byte_ranges();
            }
            codec::put_u32(&mut out, 8)?;
            codec::put_u64(&mut out, peers.len() as u64)?;
            codec::put_texts(&mut out, peers)?;
        },
        Message::Error { message } => {
            codec::put_u32(&mut out, 9)?;
            codec::put_text(&mut out, message.as_str())?;
        },
        Message::RelayData { target_peer_id, data } => {
            codec::put_u32(&mut out, 10)?;
            codec::put_text(&mut out, target_peer_id.as_str())?;
            codec::put_bytes(&mut out, data.as_slice())?;
        },
    }
    assert(out@ =~= msg@.wire());
    Ok(out)
}

/// Decodes the message that `bytes` begin with. This fails exactly if they
/// begin with none; what follows the message is ignored.
pub fn decode(bytes: &[u8]) -> (msg: Result<Message, bincode::Error>)
    ensures
        match msg {
            Ok(m) => decoded(bytes@) == Some(m@),
            Err(_) => decoded(bytes@) is None,
        },
{
    proof {
        lemma_take_message(bytes@);
    }
    let (tag, rest) = codec::take_u32(bytes)?;
    if tag == 0 {
        let (peer_id, _end) = codec::take_text(rest)?;
        Ok(Message::Register { peer_id })
    } else if tag == 1 {
        let (public_addr, _end) = codec::take_addr(rest)?;
        Ok(Message::RegisterAck { public_addr })
    } else if tag == 2 {
        let (target_peer_id, rest) = codec::take_text(rest)?;
        let (requester_peer_id, _end) = codec::take_text(rest)?;
        Ok(Message::ConnectRequest { target_peer_id, requester_peer_id })
    } else if tag == 3 {
        let (peer_addr, rest) = codec::take_addr(rest)?;
        let (peer_id, _end) = codec::take_text(rest)?;
        Ok(Message::ConnectResponse { peer_addr, peer_id })
    } else if tag == 4 {
        let (from_peer_id, rest) = codec::take_text(rest)?;
        let (from_addr, _end) = codec::take_addr(rest)?;
        Ok(Message::PunchRequest { from_peer_id, from_addr })
    } else if tag == 5 {
        Ok(Message::PunchAck)
    } else if tag == 6 {
        Ok(Message::Heartbeat)
    } else if tag == 7 {
        Ok(Message::ListPeers)
    } else if tag == 8 {
        let (count, rest) = codec::take_u64(rest)?;
        let (peers, _end) = codec::take_texts(rest, count)?;
        Ok(Message::PeerList { peers })
    } else if tag == 9 {
        let (message, _end) = codec::take_text(rest)?;
        Ok(Message::Error { message })
    } else if tag == 10 {
        let (target_peer_id, rest) = codec::take_text(rest)?;
        let (data, _end) = codec::take_bytes(rest)?;
        Ok(Message::RelayData { target_peer_id, data })
    } else {
        Err(codec::invalid_number(tag, "variant index 0 <= i < 11"))
    }
}

/// Bytes and where they go.
#[derive(Debug, Clone, PartialEq)]
pub struct Datagram {
    pub to: SocketAddr,
    pub bytes: Vec<u8>,
}

impl View for Datagram {
    type V = (SocketAddr, Seq<u8>);

    open spec fn view(&self) -> (SocketAddr, Seq<u8>) {
        (self.to, self.bytes@)
    }
}

/// The datagram that carries `msg` to `to`.
pub fn datagram(to: SocketAddr, msg: &Message) -> (packet: Datagram)
    ensures
        packet@ == (to, msg@.wire()),
        msg@.lengths_fit(),
{
    Datagram { to, bytes: encode(msg).unwrap() }
}

/// Decoding gives back what was encoded, whatever follows it in the datagram.
/// Only the flow information and the scope of an IPv6 address do not travel.
pub proof fn law_decode_undoes_encode(m: MessageModel, rest: Seq<u8>)
    requires
        m.lengths_fit(),
    ensures
        decoded(m.wire() + rest) == Some(m.sent()),
        m.sent() == m ==> decoded(m.wire() + rest) == Some(m),
{
    let bytes = m.wire() + rest;
    assert(m.sent().wire() == m.wire()) by {
        reveal(wire::wire_addr);
    }
    assert(carries(bytes, m.sent()));
    lemma_take_message(bytes);
}

/// Encoding what was decoded gives back the bytes that were read.
pub proof fn law_encode_undoes_decode(bytes: Seq<u8>)
    ensures
        decoded(bytes) matches Some(m) ==> m.lengths_fit() && m.sent() == m && m.wire()
            == bytes.take(m.wire().len() as int),
{
    lemma_take_message(bytes);
    if let Some(m) = decoded(bytes) {
        assert(m.wire() =~= bytes.take(m.wire().len() as int));
    }
}

/// A message is decoded exactly if the bytes begin with its encoding, it can be
/// encoded, and it says nothing that does not travel.
pub proof fn law_decoded_means_encoded(bytes: Seq<u8>, m: MessageModel)
    ensures
        decoded(bytes) == Some(m) <==> m.lengths_fit() && m.sent() == m
            && m.wire().is_prefix_of(bytes),
{
    lemma_take_message(bytes);
    if m.lengths_fit() && m.sent() == m && m.wire().is_prefix_of(bytes) {
        assert(carries(bytes, m));
    }
}

/// No bytes begin with two different messages.
pub proof fn law_one_message_per_datagram(bytes: Seq<u8>, a: MessageModel, b: MessageModel)
    requires
        carries(bytes, a),
        carries(bytes, b),
    ensures
        a == b,
{
    lemma_take_message(bytes);
}

/// Messages with one encoding differ in nothing that travels.
pub proof fn law_encode_is_injective(a: MessageModel, b: MessageModel)
    requires
        a.lengths_fit(),
        b.lengths_fit(),
        a.wire() == b.wire(),
    ensures
        a.sent() == b.sent(),
{
    law_decode_undoes_encode(a, seq![]);
    law_decode_undoes_encode(b, seq![]);
}

} // verus!
