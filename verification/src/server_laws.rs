//! What holds of the rendezvous server over several messages.
use vstd::prelude::*;

use crate::addr::SocketAddr;
use crate::duration::{Duration, NANOS_PER_SEC};
use crate::protocol::MessageModel;
use crate::server;
use crate::server::{PeerInfo, Peers, Replies, PEER_TIMEOUT_SECS};

verus! {

/// Something that the server takes in.
pub enum Event {
    /// A message from a sender.
    Received { from: SocketAddr, message: MessageModel, now: Duration },
    /// The search for peers that were not heard of.
    Cleanup { now: Duration },
}

impl Event {
    /// When it happens.
    pub open spec fn time(self) -> Duration {
        match self {
            Event::Received { now, .. } => now,
            Event::Cleanup { now } => now,
        }
    }

    /// Whether it turns the peers `before` into `after`.
    pub open spec fn leads(self, before: Peers, after: Peers) -> bool {
        match self {
            Event::Received { from, message, now } => server::updates(before, from, message, now, after),
            Event::Cleanup { now } => after == server::fresh_peers(before, now),
        }
    }

    /// Whether it registers `id` from `addr`.
    pub open spec fn registers_at(self, id: Seq<char>, addr: SocketAddr) -> bool {
        self matches Event::Received { from, message: MessageModel::Register { peer_id }, .. }
            && peer_id == id && from == addr
    }

    /// Whether it registers `id` from an address other than `addr`.
    pub open spec fn registers_elsewhere(self, id: Seq<char>, addr: SocketAddr) -> bool {
        self matches Event::Received { from, message: MessageModel::Register { peer_id }, .. }
            && peer_id == id && from != addr
    }

    /// Whether it is a heartbeat from `addr`.
    pub open spec fn is_heartbeat(self, addr: SocketAddr) -> bool {
        self matches Event::Received { from, message: MessageModel::Heartbeat, .. } && from == addr
    }
}

/// Whether the server goes through `states` as it takes in `events`, one at a
/// time and in the order of their times.
pub open spec fn runs(states: Seq<Peers>, events: Seq<Event>) -> bool {
    &&& states.len() == events.len() + 1
    &&& forall|i: int|
        0 <= i < events.len() ==> (#[trigger] events[i]).leads(states[i], states[i + 1])
    &&& forall|i: int, j: int|
        0 <= i <= j < events.len() ==> (#[trigger] events[i]).time()@ <= (
        #[trigger] events[j]).time()@
}

/// Only a registration adds an identifier, and it adds only its own: after any
/// other message the registered identifiers are those before it, each at its
/// address. No message removes one.
pub proof fn law_only_registration_adds(
    before: Peers,
    from: SocketAddr,
    message: MessageModel,
    now: Duration,
    after: Peers,
    id: Seq<char>,
)
    requires
        server::updates(before, from, message, now, after),
    ensures
        before.contains_key(id) ==> after.contains_key(id),
        after.contains_key(id) && !before.contains_key(id) ==> message == (
        MessageModel::Register { peer_id: id }),
        !(message is Register) ==> (after.contains_key(id) <==> before.contains_key(id)),
        !(message is Register) && before.contains_key(id) ==> after[id].addr == before[id].addr,
        before.contains_key(id) && after[id] != before[id] ==> after[id].last_seen == now && (
        message == (MessageModel::Register { peer_id: id }) || message is Heartbeat),
{
}

/// A message that is neither a registration nor a heartbeat leaves the peers
/// exactly as they were: a request to connect, a request for the list, data to
/// relay, whether or not its target is registered, a punch packet, and whatever
/// the server does not expect.
pub proof fn law_other_messages_change_nothing(
    before: Peers,
    from: SocketAddr,
    message: MessageModel,
    now: Duration,
    after: Peers,
)
    requires
        server::updates(before, from, message, now, after),
        !(message is Register),
        !(message is Heartbeat),
    ensures
        after == before,
{
}

/// A heartbeat counts for one of the peers at the address that it comes from,
/// which is then seen `now`, and for nobody else. It changes nothing of a peer
/// that is registered at another address, and from an address where nobody is
/// registered it changes nothing at all. It moves, adds and removes nobody, and
/// gets no answer.
pub proof fn law_heartbeat(
    before: Peers,
    from: SocketAddr,
    now: Duration,
    after: Peers,
    replies: Replies,
)
    requires
        server::updates(before, from, MessageModel::Heartbeat, now, after),
        server::answers(before, from, MessageModel::Heartbeat, replies),
    ensures
        after.dom() == before.dom(),
        forall|id: Seq<char>|
            before.contains_key(id) ==> (#[trigger] after[id]).addr == before[id].addr,
        forall|id: Seq<char>|
            before.contains_key(id) && before[id].addr != from ==> #[trigger] after[id]
                == before[id],
        (forall|id: Seq<char>|
            before.contains_key(id) ==> (#[trigger] before[id]).addr != from) ==> after == before,
        forall|id: Seq<char>|
            before.contains_key(id) && before[id].addr == from ==> exists|seen: Seq<char>| #[trigger]
                counts_for(before, from, now, after, seen),
        replies.len() == 0,
{
    assert(after.dom() =~= before.dom());
    assert forall|id: Seq<char>|
        before.contains_key(id) && before[id].addr == from implies exists|seen: Seq<char>| #[trigger]
        counts_for(before, from, now, after, seen) by {
        assert(server::registered_at(before, id, from));
        let seen = choose|seen: Seq<char>|
            server::registered_at(before, seen, from) && after == #[trigger] before.insert(
                seen,
                PeerInfo { addr: from, last_seen: now },
            );
        assert(counts_for(before, from, now, after, seen));
    }
}

/// Whether `seen`, which is registered at `from`, is then seen `now`, and every
/// other peer is as before.
pub open spec fn counts_for(
    before: Peers,
    from: SocketAddr,
    now: Duration,
    after: Peers,
    seen: Seq<char>,
) -> bool {
    &&& before.contains_key(seen)
    &&& before[seen].addr == from
    &&& after.contains_key(seen)
    &&& after[seen].addr == from
    &&& after[seen].last_seen == now
    &&& forall|other: Seq<char>|
        other != seen && before.contains_key(other) ==> #[trigger] after[other] == before[other]
}

/// Data for a registered peer is passed on as it is, to that peer alone; data for
/// anyone else is dropped without an answer.
pub proof fn law_relay_reaches_its_target_or_nobody(
    peers: Peers,
    from: SocketAddr,
    target: Seq<char>,
    data: Seq<u8>,
    replies: Replies,
)
    requires
        server::answers(
            peers,
            from,
            MessageModel::RelayData { target_peer_id: target, data },
            replies,
        ),
    ensures
        !peers.contains_key(target) ==> replies.len() == 0,
        peers.contains_key(target) ==> replies.len() == 1 && replies[0].0 == peers[target].addr
            && replies[0].1 == (MessageModel::RelayData { target_peer_id: target, data }),
{
}

/// A punch packet that goes astray gets no answer.
pub proof fn law_punch_packet_gets_no_answer(peers: Peers, from: SocketAddr, replies: Replies)
    requires
        server::answers(peers, from, MessageModel::PunchAck, replies),
    ensures
        replies.len() == 0,
{
}

/// A message that only the server itself sends is answered with an error, to its
/// sender alone.
pub proof fn law_unexpected_message_is_refused(
    peers: Peers,
    from: SocketAddr,
    message: MessageModel,
    replies: Replies,
)
    requires
        server::answers(peers, from, message, replies),
        message is RegisterAck || message is ConnectResponse || message is PunchRequest
            || message is PeerList || message is Error,
    ensures
        replies.len() == 1,
        replies[0] == (from, MessageModel::Error { message: "unexpected message type"@ }),
{
}

/// Whoever asks for the peers gets a list that names the registered ones, each
/// once, and nobody else.
pub proof fn law_list_names_the_peers(
    peers: Peers,
    from: SocketAddr,
    replies: Replies,
    list: Seq<Seq<char>>,
)
    requires
        server::answers(peers, from, MessageModel::ListPeers, replies),
        replies.len() > 0 && replies[0].1 == (MessageModel::PeerList { peers: list }),
    ensures
        replies.len() == 1,
        replies[0].0 == from,
        forall|id: Seq<char>| #[trigger] list.contains(id) <==> peers.contains_key(id),
        forall|i: int, j: int| 0 <= i < j < list.len() ==> list[i] != list[j],
{
}

/// A request for the peers is answered by a list.
pub proof fn law_list_is_answered(peers: Peers, from: SocketAddr, replies: Replies)
    requires
        server::answers(peers, from, MessageModel::ListPeers, replies),
    ensures
        replies.len() == 1,
        replies[0].1 is PeerList,
{
}

/// What goes out is the bytes of each reply, to its address and in its order.
pub proof fn law_packets_are_the_replies(replies: Replies, list: Seq<server::Outgoing>, i: int)
    ensures
        server::packets(replies).len() == replies.len(),
        0 <= i < replies.len() ==> server::packets(replies)[i] == (
            replies[i].0,
            replies[i].1.wire(),
        ),
        server::outgoing(list).len() == list.len(),
        0 <= i < list.len() ==> server::outgoing(list)[i] == (list[i].to, list[i].message@),
        server::sendable(replies) && 0 <= i < replies.len() ==> replies[i].1.lengths_fit(),
{
}

/// Stale peers are searched for every thirty seconds.
pub proof fn law_times_of_the_server()
    ensures
        PEER_TIMEOUT_SECS == 120,
        server::CLEANUP_INTERVAL_SECS == 30,
{
}

/// Whether a peer is registered at an address, and when nothing was heard of one
/// for too long: for more than a hundred and twenty seconds.
pub proof fn law_registered_and_stale(
    peers: Peers,
    id: Seq<char>,
    addr: SocketAddr,
    info: PeerInfo,
    now: Duration,
)
    ensures
        server::registered_at(peers, id, addr) <==> peers.contains_key(id) && peers[id].addr == addr,
        server::stale(info, now) <==> now@ > info.last_seen@ + 120_000_000_000,
{
}

/// A registered peer is introduced: whoever asks for it is told its address,
/// and it is told who asked and from where.
pub proof fn law_connect_introduces_both(
    peers: Peers,
    target: Seq<char>,
    target_addr: SocketAddr,
    requester: Seq<char>,
    from: SocketAddr,
    replies: Replies,
)
    requires
        server::registered_at(peers, target, target_addr),
        server::answers(
            peers,
            from,
            MessageModel::ConnectRequest { target_peer_id: target, requester_peer_id: requester },
            replies,
        ),
    ensures
        replies == seq![
            (
                target_addr,
                MessageModel::PunchRequest { from_peer_id: requester, from_addr: from },
            ),
            (from, MessageModel::ConnectResponse { peer_addr: target_addr, peer_id: target }),
        ],
{
}

/// A request for a peer that nobody registered is answered with an error that
/// names it, and changes nothing.
pub proof fn law_unknown_target_is_refused(
    before: Peers,
    target: Seq<char>,
    requester: Seq<char>,
    from: SocketAddr,
    now: Duration,
    after: Peers,
    replies: Replies,
)
    requires
        !before.contains_key(target),
        server::updates(
            before,
            from,
            MessageModel::ConnectRequest { target_peer_id: target, requester_peer_id: requester },
            now,
            after,
        ),
        server::answers(
            before,
            from,
            MessageModel::ConnectRequest { target_peer_id: target, requester_peer_id: requester },
            replies,
        ),
    ensures
        after == before,
        replies == seq![
            (from, MessageModel::Error { message: "peer '"@ + target + "' not found"@ }),
        ],
{
}

/// What becomes of a request to connect rests on the entry of the target alone:
/// two servers that agree on it send the same, whoever else is registered with
/// either, the asking peer included. Each stays as it was.
pub proof fn law_connect_rests_on_target_alone(
    one: Peers,
    other: Peers,
    target: Seq<char>,
    requester: Seq<char>,
    from: SocketAddr,
    now: Duration,
    one_after: Peers,
    other_after: Peers,
    one_replies: Replies,
    other_replies: Replies,
)
    requires
        one.contains_key(target) <==> other.contains_key(target),
        one.contains_key(target) ==> one[target].addr == other[target].addr,
        ({
            let m = MessageModel::ConnectRequest {
                target_peer_id: target,
                requester_peer_id: requester,
            };
            &&& server::updates(one, from, m, now, one_after)
            &&& server::updates(other, from, m, now, other_after)
            &&& server::answers(one, from, m, one_replies)
            &&& server::answers(other, from, m, other_replies)
        }),
    ensures
        one_replies == other_replies,
        server::packets(one_replies) == server::packets(other_replies),
        one_after == one,
        other_after == other,
{
}

/// A sender is acknowledged under the address that it was seen at, and is
/// registered there.
pub proof fn law_register_acknowledges(
    before: Peers,
    id: Seq<char>,
    from: SocketAddr,
    now: Duration,
    after: Peers,
    replies: Replies,
)
    requires
        server::updates(before, from, MessageModel::Register { peer_id: id }, now, after),
        server::answers(before, from, MessageModel::Register { peer_id: id }, replies),
    ensures
        server::registered_at(after, id, from),
        after[id].last_seen == now,
        replies == seq![(from, MessageModel::RegisterAck { public_addr: from })],
        forall|other: Seq<char>| #[trigger]
            after.contains_key(other) <==> before.contains_key(other) || other == id,
        forall|other: Seq<char>|
            before.contains_key(other) && other != id ==> #[trigger] after[other]
                == before[other],
{
}

/// To register an identifier again adds no peer: the later address replaces
/// the earlier one.
pub proof fn law_register_again_replaces(
    start: Peers,
    id: Seq<char>,
    first: SocketAddr,
    t1: Duration,
    middle: Peers,
    second: SocketAddr,
    t2: Duration,
    end: Peers,
)
    requires
        server::updates(start, first, MessageModel::Register { peer_id: id }, t1, middle),
        server::updates(middle, second, MessageModel::Register { peer_id: id }, t2, end),
    ensures
        end.dom() == middle.dom(),
        server::registered_at(end, id, second),
        end == start.insert(id, PeerInfo { addr: second, last_seen: t2 }),
{
    assert(end.dom() =~= middle.dom());
    assert(end =~= start.insert(id, PeerInfo { addr: second, last_seen: t2 }));
}

/// The list of peers that anyone gets names a registered peer.
pub proof fn law_registered_peer_is_listed(
    peers: Peers,
    id: Seq<char>,
    from: SocketAddr,
    replies: Replies,
)
    requires
        peers.contains_key(id),
        server::answers(peers, from, MessageModel::ListPeers, replies),
    ensures
        replies.len() == 1,
        replies[0].0 == from,
        replies[0].1 matches MessageModel::PeerList { peers: list } && list.contains(id)
            && list.no_duplicates(),
{
}

/// Data for a registered peer reaches it unchanged.
pub proof fn law_relay_delivers_unchanged(
    peers: Peers,
    target: Seq<char>,
    target_addr: SocketAddr,
    data: Seq<u8>,
    from: SocketAddr,
    replies: Replies,
)
    requires
        server::registered_at(peers, target, target_addr),
        server::answers(peers, from, MessageModel::RelayData { target_peer_id: target, data }, replies),
    ensures
        replies == seq![(target_addr, MessageModel::RelayData { target_peer_id: target, data })],
{
}

/// The server writes only to the sender of the message and to registered peers.
pub proof fn law_replies_go_to_known_addresses(
    peers: Peers,
    from: SocketAddr,
    message: MessageModel,
    replies: Replies,
    i: int,
)
    requires
        server::answers(peers, from, message, replies),
        0 <= i < replies.len(),
    ensures
        replies[i].0 == from || exists|id: Seq<char>| server::registered_at(peers, id, replies[i].0),
{
    match message {
        MessageModel::ConnectRequest { target_peer_id, .. } => {
            if peers.contains_key(target_peer_id) {
                assert(server::registered_at(peers, target_peer_id, peers[target_peer_id].addr));
            }
        },
        MessageModel::RelayData { target_peer_id, .. } => {
            if peers.contains_key(target_peer_id) {
                assert(server::registered_at(peers, target_peer_id, peers[target_peer_id].addr));
            }
        },
        _ => {},
    }
}

/// No message removes a peer, and none but a registration of the peer itself
/// changes its address.
pub proof fn law_messages_keep_peers(
    before: Peers,
    from: SocketAddr,
    message: MessageModel,
    now: Duration,
    after: Peers,
    id: Seq<char>,
)
    requires
        server::updates(before, from, message, now, after),
        before.contains_key(id),
    ensures
        after.contains_key(id),
        !(message == MessageModel::Register { peer_id: id }) ==> after[id].addr == before[id].addr,
        after[id] == before[id] || after[id].last_seen == now,
{
}

/// To search for stale peers a second time at the same moment changes nothing.
pub proof fn law_cleanup_is_idempotent(peers: Peers, now: Duration)
    ensures
        server::fresh_peers(server::fresh_peers(peers, now), now) == server::fresh_peers(peers, now),
{
    assert(server::fresh_peers(server::fresh_peers(peers, now), now) =~= server::fresh_peers(peers, now));
}

/// A heartbeat from an address where one peer alone is registered counts for
/// that peer: it is then seen `now`, and every other peer is as before.
pub proof fn law_heartbeat_counts_for_its_sender(
    before: Peers,
    id: Seq<char>,
    from: SocketAddr,
    now: Duration,
    after: Peers,
)
    requires
        server::registered_at(before, id, from),
        forall|other: Seq<char>| server::registered_at(before, other, from) ==> other == id,
        server::updates(before, from, MessageModel::Heartbeat, now, after),
    ensures
        after == before.insert(id, PeerInfo { addr: from, last_seen: now }),
{
}

/// A peer that was heard of at some moment stays registered at its address
/// through everything that the server takes in, as long as nobody registers
/// its identifier from elsewhere and no search for stale peers comes later than the
/// timeout after that moment.
pub proof fn law_heard_peer_stays_registered(
    states: Seq<Peers>,
    events: Seq<Event>,
    id: Seq<char>,
    addr: SocketAddr,
    heard: Duration,
)
    requires
        runs(states, events),
        server::registered_at(states[0], id, addr),
        states[0][id].last_seen == heard,
        forall|i: int| 0 <= i < events.len() ==> heard@ <= (#[trigger] events[i]).time()@,
        forall|i: int|
            0 <= i < events.len() ==> !(#[trigger] events[i]).registers_elsewhere(id, addr),
        forall|i: int|
            0 <= i < events.len() && (#[trigger] events[i]) is Cleanup ==> events[i].time()@
                <= heard@ + PEER_TIMEOUT_SECS as nat * NANOS_PER_SEC as nat,
    ensures
        server::registered_at(states[events.len() as int], id, addr),
        states[events.len() as int][id].last_seen@ >= heard@,
    decreases events.len(),
{
    if events.len() > 0 {
        let n = events.len() - 1;
        let earlier = events.take(n);
        assert forall|i: int| 0 <= i < n implies earlier[i] == events[i] by {}
        assert(runs(states.take(n + 1), earlier)) by {
            assert forall|i: int| 0 <= i < earlier.len() implies (#[trigger] earlier[i]).leads(
                states.take(n + 1)[i],
                states.take(n + 1)[i + 1],
            ) by {
                assert(events[i].leads(states[i], states[i + 1]));
            }
            assert forall|i: int, j: int| 0 <= i <= j < earlier.len() implies (
            #[trigger] earlier[i]).time()@ <= (#[trigger] earlier[j]).time()@ by {
                assert(events[i].time()@ <= events[j].time()@);
            }
        }
        law_heard_peer_stays_registered(states.take(n + 1), earlier, id, addr, heard);
        assert(events[n].leads(states[n], states[n + 1]));
        assert(!events[n].registers_elsewhere(id, addr));
        assert(heard@ <= events[n].time()@);
        match events[n] {
            Event::Received { from, message, now } => {
                law_messages_keep_peers(states[n], from, message, now, states[n + 1], id);
            },
            Event::Cleanup { now } => {
                assert(!server::stale(states[n][id], now));
            },
        }
    }
}

/// When the server, which heard of the peer `id` at `start`, last heard of it
/// before the `k`th event: by a heartbeat from `addr`, or because the peer
/// registered from there again.
pub open spec fn last_heard(
    events: Seq<Event>,
    k: int,
    id: Seq<char>,
    addr: SocketAddr,
    start: Duration,
) -> nat
    decreases k,
{
    if k <= 0 {
        start@
    } else if events[k - 1].is_heartbeat(addr) || events[k - 1].registers_at(id, addr) {
        events[k - 1].time()@
    } else {
        last_heard(events, k - 1, id, addr, start)
    }
}

/// Heartbeats prevent the cleanup: a peer that is alone at its address stays
/// registered there through everything that the server takes in, as long as
/// nobody registers its identifier from elsewhere and each search for stale
/// peers comes within the timeout after its last registration or heartbeat.
pub proof fn law_heartbeats_prevent_cleanup(
    states: Seq<Peers>,
    events: Seq<Event>,
    id: Seq<char>,
    addr: SocketAddr,
    start: Duration,
    n: int,
)
    requires
        runs(states, events),
        0 <= n <= events.len(),
        server::registered_at(states[0], id, addr),
        states[0][id].last_seen == start,
        forall|i: int| 0 <= i < events.len() ==> start@ <= (#[trigger] events[i]).time()@,
        forall|i: int|
            0 <= i < events.len() ==> !(#[trigger] events[i]).registers_elsewhere(id, addr),
        forall|i: int, other: Seq<char>|
            0 <= i < events.len() && #[trigger] server::registered_at(states[i], other, addr)
                ==> other == id,
        forall|i: int|
            0 <= i < events.len() && (#[trigger] events[i]) is Cleanup ==> events[i].time()@
                <= last_heard(events, i, id, addr, start) + PEER_TIMEOUT_SECS as nat
                * NANOS_PER_SEC as nat,
    ensures
        server::registered_at(states[n], id, addr),
        states[n][id].last_seen@ >= last_heard(events, n, id, addr, start),
        n > 0 ==> last_heard(events, n, id, addr, start) <= events[n - 1].time()@,
    decreases n,
{
    if n > 0 {
        let k = n - 1;
        law_heartbeats_prevent_cleanup(states, events, id, addr, start, k);
        assert(events[k].leads(states[k], states[n]));
        assert(!events[k].registers_elsewhere(id, addr));
        if k > 0 {
            assert(events[k - 1].time()@ <= events[k].time()@);
        }
        match events[k] {
            Event::Received { from, message, now } => {
                law_messages_keep_peers(states[k], from, message, now, states[n], id);
                if events[k].is_heartbeat(addr) {
                    law_heartbeat_counts_for_its_sender(states[k], id, addr, now, states[n]);
                }
            },
            Event::Cleanup { now } => {
                assert(!server::stale(states[k][id], now));
            },
        }
    }
}

/// A search for stale peers drops a peer exactly if nothing was heard of it for
/// longer than a hundred and twenty seconds, leaves the others as they are, and
/// adds nobody.
pub proof fn law_stale_peer_is_dropped(peers: Peers, id: Seq<char>, now: Duration)
    requires
        peers.contains_key(id),
    ensures
        server::fresh_peers(peers, now).contains_key(id) <==> now@ <= peers[id].last_seen@
            + 120_000_000_000,
        server::fresh_peers(peers, now).contains_key(id) ==> server::fresh_peers(peers, now)[id]
            == peers[id],
        forall|other: Seq<char>| #[trigger]
            server::fresh_peers(peers, now).contains_key(other) ==> peers.contains_key(other),
{
}

} // verus!
