//! The rendezvous server: it keeps the addresses of the registered peers and
//! introduces them to each other.
//!
//! The server here reads no socket and no clock. Whoever runs it hands it each
//! datagram with its sender and the time, and sends what it answers.
use vstd::hash_map::StringHashMap;
use vstd::prelude::*;
use vstd::string::StringExecFns;

use crate::addr::SocketAddr;
use crate::duration::{Duration, NANOS_PER_SEC};
use crate::error::HolePunchError;
use crate::protocol;
use crate::protocol::{datagram, decode, Datagram, Message, MessageModel};

verus! {

/// The seconds after which a peer that was not heard of is dropped.
pub const PEER_TIMEOUT_SECS: u64 = 120;

/// The seconds between two searches for such peers.
pub const CLEANUP_INTERVAL_SECS: u64 = 30;

/// Where a peer is, and when it was last heard of.
#[derive(Debug, Clone, Copy)]
pub struct PeerInfo {
    pub addr: SocketAddr,
    pub last_seen: Duration,
}

/// What the server knows: the registered peers under their identifiers.
pub type Peers = Map<Seq<char>, PeerInfo>;

/// A message and where it goes.
#[derive(Debug, Clone, PartialEq)]
pub struct Outgoing {
    pub to: SocketAddr,
    pub message: Message,
}

impl View for Outgoing {
    type V = (SocketAddr, MessageModel);

    open spec fn view(&self) -> (SocketAddr, MessageModel) {
        (self.to, self.message@)
    }
}

/// What the server sends upon a message, in this order.
pub type Replies = Seq<(SocketAddr, MessageModel)>;

/// Messages, each with where it goes.
pub open spec fn outgoing(list: Seq<Outgoing>) -> Replies {
    list.map_values(|one: Outgoing| one@)
}

/// The bytes of each message, with where they go.
pub open spec fn packets(replies: Replies) -> Seq<(SocketAddr, Seq<u8>)> {
    replies.map_values(|one: (SocketAddr, MessageModel)| (one.0, one.1.wire()))
}

/// Whether each of the messages can be encoded.
pub open spec fn sendable(replies: Replies) -> bool {
    forall|i: int| 0 <= i < replies.len() ==> (#[trigger] replies[i]).1.lengths_fit()
}

/// Whether the peer `id` is registered at `addr`.
pub open spec fn registered_at(peers: Peers, id: Seq<char>, addr: SocketAddr) -> bool {
    peers.contains_key(id) && peers[id].addr == addr
}

/// Whether `list` names each registered peer once and nothing else.
pub open spec fn lists(peers: Peers, list: Seq<Seq<char>>) -> bool {
    &&& list.no_duplicates()
    &&& forall|id: Seq<char>| #[trigger] list.contains(id) <==> peers.contains_key(id)
}

/// Whether nothing was heard for too long of a peer, seen from `now`.
pub open spec fn stale(info: PeerInfo, now: Duration) -> bool {
    now@ > info.last_seen@ + PEER_TIMEOUT_SECS as nat * NANOS_PER_SEC as nat
}

/// The peers that are not stale.
pub open spec fn fresh_peers(peers: Peers, now: Duration) -> Peers {
    peers.restrict(Set::new(|id: Seq<char>| peers.contains_key(id) && !stale(peers[id], now)))
}

/// The text that tells a peer of an identifier nobody registered.
pub open spec fn not_found_text(id: Seq<char>) -> Seq<char> {
    "peer '"@ + id + "' not found"@
}

/// Whether a heartbeat from `from` turns the peers `before` into `after`: of
/// the peers at that address, one counts as seen `now`.
pub open spec fn heartbeat_seen(
    before: Peers,
    from: SocketAddr,
    now: Duration,
    after: Peers,
) -> bool {
    if exists|id: Seq<char>| registered_at(before, id, from) {
        exists|id: Seq<char>|
            registered_at(before, id, from) && after == #[trigger] before.insert(
                id,
                PeerInfo { addr: from, last_seen: now },
            )
    } else {
        after == before
    }
}

/// Whether the message `m` from `from` turns the peers `before` into `after`.
pub open spec fn updates(
    before: Peers,
    from: SocketAddr,
    m: MessageModel,
    now: Duration,
    after: Peers,
) -> bool {
    match m {
        MessageModel::Register { peer_id } => after == before.insert(
            peer_id,
            PeerInfo { addr: from, last_seen: now },
        ),
        MessageModel::Heartbeat => heartbeat_seen(before, from, now, after),
        _ => after == before,
    }
}

/// Whether `replies` is what the server sends upon the message `m` from `from`.
pub open spec fn answers(
    peers: Peers,
    from: SocketAddr,
    m: MessageModel,
    replies: Replies,
) -> bool {
    match m {
        MessageModel::Register { .. } => replies == seq![
            (from, MessageModel::RegisterAck { public_addr: from }),
        ],
        MessageModel::ConnectRequest { target_peer_id, requester_peer_id } => if peers.contains_key(
            target_peer_id,
        ) {
            replies == seq![
                (
                    peers[target_peer_id].addr,
                    MessageModel::PunchRequest { from_peer_id: requester_peer_id, from_addr: from },
                ),
                (
                    from,
                    MessageModel::ConnectResponse {
                        peer_addr: peers[target_peer_id].addr,
                        peer_id: target_peer_id,
                    },
                ),
            ]
        } else {
            replies == seq![(from, MessageModel::Error { message: not_found_text(target_peer_id) })]
        },
        MessageModel::ListPeers => {
            &&& replies.len() == 1
            &&& replies[0].0 == from
            &&& replies[0].1 matches MessageModel::PeerList { peers: list }
            &&& lists(peers, list)
        },
        MessageModel::RelayData { target_peer_id, .. } => if peers.contains_key(target_peer_id) {
            replies == seq![(peers[target_peer_id].addr, m)]
        } else {
            replies == Replies::empty()
        },
        MessageModel::Heartbeat => replies == Replies::empty(),
        MessageModel::PunchAck => replies == Replies::empty(),
        _ => replies == seq![(from, MessageModel::Error { message: "unexpected message type"@ })],
    }
}

/// The rendezvous server.
pub struct RendezvousServer {
    peers: StringHashMap<PeerInfo>,
    ids: Vec<String>,
}

impl View for RendezvousServer {
    type V = Peers;

    closed spec fn view(&self) -> Peers {
        self.peers@
    }
}

/// Whether `picked` holds those of `all` that `wanted` asks for, each once.
spec fn picks(all: Seq<Seq<char>>, picked: Seq<Seq<char>>, wanted: spec_fn(Seq<char>) -> bool) -> bool {
    &&& picked.no_duplicates()
    &&& forall|id: Seq<char>| #[trigger] picked.contains(id) <==> all.contains(id) && wanted(id)
}

proof fn lemma_push_contains(list: Seq<Seq<char>>, last: Seq<char>)
    ensures
        forall|id: Seq<char>| #[trigger]
            list.push(last).contains(id) <==> list.contains(id) || id == last,
{
    let more = list.push(last);
    assert forall|id: Seq<char>| #[trigger] more.contains(id) <==> list.contains(id) || id
        == last by {
        if list.contains(id) {
            let k = choose|k: int| 0 <= k < list.len() && list[k] == id;
            assert(more[k] == id);
        }
        if id == last {
            assert(more[list.len() as int] == id);
        }
    }
}

/// One more element of a list without duplicates is picked or left.
proof fn lemma_pick_next(
    all: Seq<Seq<char>>,
    i: int,
    picked: Seq<Seq<char>>,
    wanted: spec_fn(Seq<char>) -> bool,
)
    requires
        0 <= i < all.len(),
        all.no_duplicates(),
        picks(all.take(i), picked, wanted),
    ensures
        wanted(all[i]) ==> picks(all.take(i + 1), picked.push(all[i]), wanted),
        !wanted(all[i]) ==> picks(all.take(i + 1), picked, wanted),
{
    let before = all.take(i);
    assert(all.take(i + 1) =~= before.push(all[i]));
    lemma_push_contains(before, all[i]);
    lemma_push_contains(picked, all[i]);
    assert(!before.contains(all[i]));
    assert(!picked.contains(all[i]));
}

impl RendezvousServer {
    /// The list of identifiers names each registered peer once.
    pub closed spec fn wf(&self) -> bool {
        lists(self.peers@, protocol::texts(self.ids@))
    }

    /// A server that knows no peers.
    pub fn new() -> (server: RendezvousServer)
        ensures
            server.wf(),
            server@ == Peers::empty(),
    {
        RendezvousServer { peers: StringHashMap::new(), ids: Vec::new() }
    }

    /// Keeps the sender under `peer_id`, in place of whoever had it, and tells
    /// the sender the address that was seen.
    pub fn handle_register(&mut self, from_addr: SocketAddr, peer_id: &str, now: Duration) -> (replies:
        Vec<Outgoing>)
        requires
            old(self).wf(),
        ensures
            final(self).wf(),
            final(self)@ == old(self)@.insert(
                peer_id@,
                PeerInfo { addr: from_addr, last_seen: now },
            ),
            outgoing(replies@) == seq![
                (from_addr, MessageModel::RegisterAck { public_addr: from_addr }),
            ],
    {
        if !self.peers.contains_key(peer_id) {
            self.ids.push(peer_id.to_owned());
            proof {
                let before = protocol::texts(old(self).ids@);
                let after = protocol::texts(self.ids@);
                assert(after =~= before.push(peer_id@));
                assert(!before.contains(peer_id@));
                lemma_push_contains(before, peer_id@);
            }
        }
        self.peers.insert(peer_id.to_owned(), PeerInfo { addr: from_addr, last_seen: now });
        let replies = vec![
            Outgoing {
                to: from_addr,
                message: Message::RegisterAck { public_addr: from_addr },
            },
        ];
        assert(outgoing(replies@) =~= seq![replies@[0]@]);
        replies
    }

    /// Tells the target that the sender wants to reach it, and the sender
    /// where the target is; or tells the sender that there is no such peer.
    pub fn handle_connect_request(
        &self,
        from_addr: SocketAddr,
        target_peer_id: &str,
        requester_peer_id: &str,
    ) -> (replies: Vec<Outgoing>)
        ensures
            answers(
                self@,
                from_addr,
                MessageModel::ConnectRequest {
                    target_peer_id: target_peer_id@,
                    requester_peer_id: requester_peer_id@,
                },
                outgoing(replies@),
            ),
    {
        match self.peers.get(target_peer_id) {
            Some(target) => {
                let replies = vec![
                    Outgoing {
                        to: target.addr,
                        message: Message::PunchRequest {
                            from_peer_id: requester_peer_id.to_owned(),
                            from_addr,
                        },
                    },
                    Outgoing {
                        to: from_addr,
                        message: Message::ConnectResponse {
                            peer_addr: target.addr,
                            peer_id: target_peer_id.to_owned(),
                        },
                    },
                ];
                assert(outgoing(replies@) =~= seq![replies@[0]@, replies@[1]@]);
                replies
            },
            None => {
                let mut text = "peer '".to_owned();
                text.append(target_peer_id);
                text.append("' not found");
                let replies = vec![
                    Outgoing { to: from_addr, message: Message::Error { message: text } },
                ];
                assert(outgoing(replies@) =~= seq![replies@[0]@]);
                replies
            },
        }
    }

    /// Counts one of the peers at the sender's address as seen now.
    pub fn handle_heartbeat(&mut self, from_addr: SocketAddr, now: Duration)
        requires
            old(self).wf(),
        ensures
            final(self).wf(),
            heartbeat_seen(old(self)@, from_addr, now, final(self)@),
    {
        let mut i: usize = 0;
        while i < self.ids.len()
            invariant
                i <= self.ids@.len(),
                self.wf(),
                *self == *old(self),
                forall|j: int|
                    0 <= j < i ==> !registered_at(
                        self.peers@,
                        #[trigger] protocol::texts(self.ids@)[j],
                        from_addr,
                    ),
            decreases self.ids.len() - i,
        {
            assert(protocol::texts(self.ids@)[i as int] == self.ids@[i as int]@);
            let found = match self.peers.get(self.ids[i].as_str()) {
                Some(info) => info.addr == from_addr,
                None => false,
            };
            if found {
                let id = self.ids[i].clone();
                assert(registered_at(self.peers@, id@, from_addr));
                self.peers.insert(id, PeerInfo { addr: from_addr, last_seen: now });
                return ;
            }
            i += 1;
        }
        assert forall|id: Seq<char>| !registered_at(self.peers@, id, from_addr) by {
            if self.peers@.contains_key(id) {
                let named = protocol::texts(self.ids@);
                assert(named.contains(id));
                let j = choose|j: int| 0 <= j < named.len() && named[j] == id;
                assert(!registered_at(self.peers@, named[j], from_addr));
            }
        }
    }

    /// Tells the sender the identifiers of all registered peers.
    pub fn handle_list_peers(&self, from_addr: SocketAddr) -> (replies: Vec<Outgoing>)
        requires
            self.wf(),
        ensures
            answers(self@, from_addr, MessageModel::ListPeers, outgoing(replies@)),
    {
        let mut list: Vec<String> = Vec::new();
        let mut i: usize = 0;
        while i < self.ids.len()
            invariant
                i <= self.ids@.len(),
                list@ == self.ids@.take(i as int),
            decreases self.ids.len() - i,
        {
            list.push(self.ids[i].clone());
            assert(self.ids@.take(i + 1) =~= self.ids@.take(i as int).push(self.ids@[i as int]));
            i += 1;
        }
        assert(list@ =~= self.ids@);
        let replies = vec![
            Outgoing { to: from_addr, message: Message::PeerList { peers: list } },
        ];
        assert(outgoing(replies@) =~= seq![replies@[0]@]);
        replies
    }

    /// Passes data on to the target, if it is registered.
    pub fn handle_relay(&self, target_peer_id: &str, data: Vec<u8>) -> (replies: Vec<Outgoing>)
        ensures
            outgoing(replies@) == if self@.contains_key(target_peer_id@) {
                seq![
                    (
                        self@[target_peer_id@].addr,
                        MessageModel::RelayData { target_peer_id: target_peer_id@, data: data@ },
                    ),
                ]
            } else {
                Replies::empty()
            },
    {
        match self.peers.get(target_peer_id) {
            Some(target) => {
                let replies = vec![
                    Outgoing {
                        to: target.addr,
                        message: Message::RelayData {
                            target_peer_id: target_peer_id.to_owned(),
                            data,
                        },
                    },
                ];
                assert(outgoing(replies@) =~= seq![replies@[0]@]);
                replies
            },
            None => {
                let replies: Vec<Outgoing> = Vec::new();
                assert(outgoing(replies@) =~= Replies::empty());
                replies
            },
        }
    }

    /// Takes in a message and says what to send upon it.
    pub fn handle_message(&mut self, from_addr: SocketAddr, msg: Message, now: Duration) -> (replies:
        Vec<Outgoing>)
        requires
            old(self).wf(),
        ensures
            final(self).wf(),
            updates(old(self)@, from_addr, msg@, now, final(self)@),
            answers(old(self)@, from_addr, msg@, outgoing(replies@)),
    {
        match msg {
            Message::Register { peer_id } => self.handle_register(
                from_addr,
                peer_id.as_str(),
                now,
            ),
            Message::ConnectRequest {
                target_peer_id,
                requester_peer_id,
            } => self.handle_connect_request(
                from_addr,
                target_peer_id.as_str(),
                requester_peer_id.as_str(),
            ),
            Message::Heartbeat => {
                self.handle_heartbeat(from_addr, now);
                let replies: Vec<Outgoing> = Vec::new();
                assert(outgoing(replies@) =~= Replies::empty());
                replies
            },
            Message::ListPeers => self.handle_list_peers(from_addr),
            Message::RelayData { target_peer_id, data } => self.handle_relay(
                target_peer_id.as_str(),
                data,
            ),
            Message::PunchAck => {
                let replies: Vec<Outgoing> = Vec::new();
                assert(outgoing(replies@) =~= Replies::empty());
                replies
            },
            _ => {
                let replies = vec![
                    Outgoing {
                        to: from_addr,
                        message: Message::Error { message: "unexpected message type".to_owned() },
                    },
                ];
                assert(outgoing(replies@) =~= seq![replies@[0]@]);
                replies
            },
        }
    }

    /// Takes in a datagram and says what to send upon it. One that carries no
    /// message is an error and changes nothing.
    pub fn handle_datagram(&mut self, from_addr: SocketAddr, data: &[u8], now: Duration) -> (sent:
        Result<Vec<Datagram>, HolePunchError>)
        requires
            old(self).wf(),
        ensures
            final(self).wf(),
            match protocol::decoded(data@) {
                Some(m) => {
                    &&& sent is Ok
                    &&& updates(old(self)@, from_addr, m, now, final(self)@)
                    &&& exists|replies: Replies| #[trigger]
                        answers(old(self)@, from_addr, m, replies) && sendable(replies)
                            && sent->Ok_0@.map_values(|one: Datagram| one@) == packets(replies)
                },
                None => {
                    &&& sent is Err
                    &&& sent->Err_0 is Serialization
                    &&& final(self)@ == old(self)@
                },
            },
    {
        let msg = match decode(data) {
            Ok(msg) => msg,
            Err(error) => return Err(HolePunchError::from(error)),
        };
        let replies = self.handle_message(from_addr, msg, now);
        let ghost model = outgoing(replies@);
        let mut sent: Vec<Datagram> = Vec::new();
        let mut i: usize = 0;
        while i < replies.len()
            invariant
                i <= replies@.len(),
                model == outgoing(replies@),
                sent@.len() == i,
                forall|j: int| 0 <= j < i ==> (#[trigger] sent@[j])@ == packets(model)[j],
                forall|j: int| 0 <= j < i ==> (#[trigger] model[j]).1.lengths_fit(),
            decreases replies.len() - i,
        {
            assert(model[i as int] == replies@[i as int]@);
            sent.push(datagram(replies[i].to, &replies[i].message));
            i += 1;
        }
        assert(sent@.map_values(|one: Datagram| one@) =~= packets(model));
        Ok(sent)
    }

    /// Drops the peers of which nothing was heard for too long, and returns
    /// their identifiers.
    pub fn remove_stale_peers(&mut self, now: Duration) -> (removed: Vec<String>)
        requires
            old(self).wf(),
        ensures
            final(self).wf(),
            final(self)@ == fresh_peers(old(self)@, now),
            protocol::texts(removed@).no_duplicates(),
            forall|id: Seq<char>| #[trigger]
                protocol::texts(removed@).contains(id) <==> old(self)@.contains_key(id) && stale(
                    old(self)@[id],
                    now,
                ),
    {
        let timeout = Duration::from_secs(PEER_TIMEOUT_SECS);
        let mut removed: Vec<String> = Vec::new();
        let mut kept: Vec<String> = Vec::new();
        let ghost before = self.peers@;
        let ghost all = protocol::texts(self.ids@);
        let ghost gone = |id: Seq<char>| stale(before[id], now);
        let ghost stays = |id: Seq<char>| !stale(before[id], now);
        let mut i: usize = 0;
        while i < self.ids.len()
            invariant
                i <= self.ids@.len(),
                all == protocol::texts(self.ids@),
                lists(before, all),
                timeout@ == PEER_TIMEOUT_SECS as nat * NANOS_PER_SEC as nat,
                gone == (|id: Seq<char>| stale(before[id], now)),
                stays == (|id: Seq<char>| !stale(before[id], now)),
                picks(all.take(i as int), protocol::texts(kept@), stays),
                picks(all.take(i as int), protocol::texts(removed@), gone),
                self.peers@ == before.remove_keys(protocol::texts(removed@).to_set()),
            decreases self.ids.len() - i,
        {
            let id = self.ids[i].clone();
            proof {
                assert(all[i as int] == id@);
                assert(all.contains(id@));
                lemma_pick_next(all, i as int, protocol::texts(kept@), stays);
                lemma_pick_next(all, i as int, protocol::texts(removed@), gone);
                assert(!all.take(i as int).contains(id@));
                assert(!protocol::texts(removed@).contains(id@));
            }
            let expired = match self.peers.get(id.as_str()) {
                Some(info) => timeout.is_shorter_than(&now.saturating_sub(info.last_seen)),
                None => false,
            };
            if expired {
                self.peers.remove(id.as_str());
                let ghost earlier = protocol::texts(removed@);
                removed.push(id);
                assert(protocol::texts(removed@) =~= earlier.push(id@));
                proof {
                    lemma_push_contains(earlier, id@);
                }
                assert(protocol::texts(removed@).to_set() =~= earlier.to_set().insert(id@));
                assert(self.peers@ =~= before.remove_keys(protocol::texts(removed@).to_set()));
            } else {
                let ghost earlier = protocol::texts(kept@);
                kept.push(id);
                assert(protocol::texts(kept@) =~= earlier.push(id@));
            }
            i += 1;
        }
        assert(all.take(i as int) =~= all);
        self.ids = kept;
        assert(self.peers@ =~= fresh_peers(before, now)) by {
            assert forall|id: Seq<char>| #[trigger]
                self.peers@.contains_key(id) <==> fresh_peers(before, now).contains_key(id) by {
                assert(protocol::texts(removed@).to_set().contains(id) <==> protocol::texts(removed@).contains(id));
                assert(all.contains(id) <==> before.contains_key(id));
            }
        }
        removed
    }
}

} // verus!
