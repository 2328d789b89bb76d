//! What holds of clients and the server together: a request travels to the
//! server as bytes, and what the server sends travels back as bytes.
use vstd::prelude::*;

use crate::addr::SocketAddr;
use crate::client;
use crate::client::{ClientModel, Heard};
use crate::duration::Duration;
use crate::event::RecvOutcome;
use crate::protocol;
use crate::protocol::MessageModel;
use crate::server;
use crate::server::{Peers, Replies};
use crate::wire;

verus! {

/// Whether a client of the server at `server` reads the bytes of the `i`th of
/// the `replies`, as the server sent them.
pub open spec fn reads_reply(
    server: SocketAddr,
    replies: Replies,
    i: int,
    outcome: RecvOutcome,
) -> bool {
    &&& 0 <= i < replies.len()
    &&& outcome matches RecvOutcome::Received { data, from }
    &&& from == server
    &&& data@ == server::packets(replies)[i].1
}

/// What a client hears of a reply is the reply, but for what does not travel.
pub proof fn law_reply_is_heard(
    server: SocketAddr,
    replies: Replies,
    i: int,
    outcome: RecvOutcome,
)
    requires
        server::sendable(replies),
        reads_reply(server, replies, i, outcome),
    ensures
        client::heard(server, outcome) == Heard::Message(replies[i].1.sent()),
{
    let bytes = replies[i].1.wire();
    protocol::law_decode_undoes_encode(replies[i].1, seq![]);
    assert(bytes + seq![] =~= bytes);
}

/// What the server gets of a request is the request.
pub proof fn law_request_is_understood(request: MessageModel)
    requires
        request.lengths_fit(),
        request.sent() == request,
    ensures
        protocol::decoded(request.wire()) == Some(request),
{
    protocol::law_decode_undoes_encode(request, seq![]);
    assert(request.wire() + seq![] =~= request.wire());
}

/// A peer that registers is known under its identifier at the address that the
/// server saw, and hears that address.
pub proof fn law_registration(
    server: SocketAddr,
    id: Seq<char>,
    seen_at: SocketAddr,
    now: Duration,
    before: Peers,
    after: Peers,
    replies: Replies,
    outcome: RecvOutcome,
)
    requires
        (MessageModel::Register { peer_id: id }).lengths_fit(),
        protocol::decoded((MessageModel::Register { peer_id: id }).wire()) matches Some(m)
            && server::updates(before, seen_at, m, now, after) && server::answers(
            before,
            seen_at,
            m,
            replies,
        ),
        server::sendable(replies),
        reads_reply(server, replies, 0, outcome),
    ensures
        server::registered_at(after, id, seen_at),
        server::packets(replies).len() == 1,
        server::packets(replies)[0].0 == seen_at,
        client::heard(server, outcome) == Heard::Message(
            MessageModel::RegisterAck { public_addr: wire::addr_sent(seen_at) },
        ),
{
    law_request_is_understood(MessageModel::Register { peer_id: id });
    law_reply_is_heard(server, replies, 0, outcome);
}

/// The rendezvous: when a peer at `from` asks for a peer that is registered at
/// `target_addr`, the asking peer hears where the other one is, and the other
/// one hears who asks and from where. Nobody else is written to.
pub proof fn law_rendezvous(
    server: SocketAddr,
    peers: Peers,
    target: Seq<char>,
    target_addr: SocketAddr,
    requester: Seq<char>,
    from: SocketAddr,
    replies: Replies,
    at_target: RecvOutcome,
    at_requester: RecvOutcome,
)
    requires
        (MessageModel::ConnectRequest {
            target_peer_id: target,
            requester_peer_id: requester,
        }).lengths_fit(),
        server::registered_at(peers, target, target_addr),
        protocol::decoded(
            (MessageModel::ConnectRequest {
                target_peer_id: target,
                requester_peer_id: requester,
            }).wire(),
        ) matches Some(m) && server::answers(peers, from, m, replies),
        server::sendable(replies),
        reads_reply(server, replies, 0, at_target),
        reads_reply(server, replies, 1, at_requester),
    ensures
        server::packets(replies).len() == 2,
        server::packets(replies)[0].0 == target_addr,
        server::packets(replies)[1].0 == from,
        client::heard(server, at_target) == Heard::Message(
            MessageModel::PunchRequest {
                from_peer_id: requester,
                from_addr: wire::addr_sent(from),
            },
        ),
        client::heard(server, at_requester) == Heard::Message(
            MessageModel::ConnectResponse {
                peer_addr: wire::addr_sent(target_addr),
                peer_id: target,
            },
        ),
{
    law_request_is_understood(
        MessageModel::ConnectRequest { target_peer_id: target, requester_peer_id: requester },
    );
    law_reply_is_heard(server, replies, 0, at_target);
    law_reply_is_heard(server, replies, 1, at_requester);
}

/// A peer that asks for one that nobody registered hears an error that names it.
pub proof fn law_refusal(
    server: SocketAddr,
    peers: Peers,
    target: Seq<char>,
    requester: Seq<char>,
    from: SocketAddr,
    replies: Replies,
    outcome: RecvOutcome,
)
    requires
        (MessageModel::ConnectRequest {
            target_peer_id: target,
            requester_peer_id: requester,
        }).lengths_fit(),
        !peers.contains_key(target),
        protocol::decoded(
            (MessageModel::ConnectRequest {
                target_peer_id: target,
                requester_peer_id: requester,
            }).wire(),
        ) matches Some(m) && server::answers(peers, from, m, replies),
        server::sendable(replies),
        reads_reply(server, replies, 0, outcome),
    ensures
        server::packets(replies).len() == 1,
        server::packets(replies)[0].0 == from,
        client::heard(server, outcome) == Heard::Message(
            MessageModel::Error { message: server::not_found_text(target) },
        ),
{
    law_request_is_understood(
        MessageModel::ConnectRequest { target_peer_id: target, requester_peer_id: requester },
    );
    law_reply_is_heard(server, replies, 0, outcome);
}

/// Data that a peer relays is heard by its target as it was sent.
pub proof fn law_relay(
    server: SocketAddr,
    peers: Peers,
    target: Seq<char>,
    target_addr: SocketAddr,
    data: Seq<u8>,
    from: SocketAddr,
    replies: Replies,
    at_target: RecvOutcome,
)
    requires
        (MessageModel::RelayData { target_peer_id: target, data }).lengths_fit(),
        server::registered_at(peers, target, target_addr),
        protocol::decoded(
            (MessageModel::RelayData { target_peer_id: target, data }).wire(),
        ) matches Some(m) && server::answers(peers, from, m, replies),
        server::sendable(replies),
        reads_reply(server, replies, 0, at_target),
    ensures
        server::packets(replies).len() == 1,
        server::packets(replies)[0].0 == target_addr,
        client::heard(server, at_target) == Heard::Message(
            MessageModel::RelayData { target_peer_id: target, data },
        ),
{
    law_request_is_understood(MessageModel::RelayData { target_peer_id: target, data });
    law_reply_is_heard(server, replies, 0, at_target);
}

/// A peer that asks for the peers hears each registered one, once.
pub proof fn law_listing(
    server: SocketAddr,
    peers: Peers,
    from: SocketAddr,
    replies: Replies,
    outcome: RecvOutcome,
)
    requires
        protocol::decoded(MessageModel::ListPeers.wire()) matches Some(m) && server::answers(
            peers,
            from,
            m,
            replies,
        ),
        server::sendable(replies),
        reads_reply(server, replies, 0, outcome),
    ensures
        server::packets(replies).len() == 1,
        server::packets(replies)[0].0 == from,
        client::heard(server, outcome) matches Heard::Message(
            MessageModel::PeerList { peers: list },
        ) && server::lists(peers, list),
{
    law_request_is_understood(MessageModel::ListPeers);
    law_reply_is_heard(server, replies, 0, outcome);
}

/// A client hears nothing of a packet that does not come from its server.
pub proof fn law_only_the_server_is_heard(server: SocketAddr, data: Vec<u8>, from: SocketAddr)
    requires
        from != server,
    ensures
        client::heard(server, RecvOutcome::Received { data, from }) == Heard::Nothing,
{
}

/// The client after several messages that it passes over.
pub open spec fn pass_over_all(start: ClientModel, messages: Seq<MessageModel>) -> ClientModel
    decreases messages.len(),
{
    if messages.len() == 0 {
        start
    } else {
        pass_over_all(start, messages.drop_last()).pass_over(messages.last())
    }
}

/// The requests of other peers among some messages, in their order.
pub open spec fn punch_requests(messages: Seq<MessageModel>) -> Seq<(Seq<char>, SocketAddr)>
    decreases messages.len(),
{
    if messages.len() == 0 {
        seq![]
    } else {
        match messages.last() {
            MessageModel::PunchRequest { from_peer_id, from_addr } => punch_requests(
                messages.drop_last(),
            ).push((from_peer_id, from_addr)),
            _ => punch_requests(messages.drop_last()),
        }
    }
}

/// Requests of other peers that come while a client waits for something else
/// are all kept, in the order in which they came, behind those that were there;
/// nothing else of the client changes.
pub proof fn law_requests_are_kept_in_order(start: ClientModel, messages: Seq<MessageModel>)
    ensures
        pass_over_all(start, messages) == (ClientModel {
            pending: start.pending + punch_requests(messages),
            ..start
        }),
    decreases messages.len(),
{
    if messages.len() == 0 {
        assert(start.pending + punch_requests(messages) =~= start.pending);
    } else {
        let earlier = messages.drop_last();
        law_requests_are_kept_in_order(start, earlier);
        assert(pass_over_all(start, messages).pending =~= start.pending + punch_requests(messages));
    }
}

} // verus!
