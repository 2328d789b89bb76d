//! The rendezvous server at work: it reads a datagram, sends what it answers,
//! and reads on.
//!
//! A service touches no socket and no clock. It says what to do next, and is
//! told what came of it and when. Several services may work for one server:
//! what each has yet to send is its own.
use std::collections::VecDeque;

use vstd::prelude::*;

use crate::addr::SocketAddr;
use crate::duration::Duration;
use crate::event::{IoEvent, RecvOutcome};
use crate::protocol;
use crate::protocol::{Datagram, MessageModel};
use crate::server;
use crate::server::{Peers, RendezvousServer, Replies};

verus! {

/// What to do next.
#[derive(Debug)]
pub enum ServiceAction {
    /// Send a packet.
    Send { packet: Datagram },
    /// Wait for a packet, however long it takes.
    Receive,
    /// Stop: the socket cannot be read any more.
    Stop(std::io::Error),
}

/// An action, over mathematical values.
pub enum ServiceActionModel {
    Send { to: SocketAddr, bytes: Seq<u8> },
    Receive,
    Stop(std::io::Error),
}

impl View for ServiceAction {
    type V = ServiceActionModel;

    open spec fn view(&self) -> ServiceActionModel {
        match *self {
            ServiceAction::Send { packet } => ServiceActionModel::Send {
                to: packet.to,
                bytes: packet.bytes@,
            },
            ServiceAction::Receive => ServiceActionModel::Receive,
            ServiceAction::Stop(error) => ServiceActionModel::Stop(error),
        }
    }
}

/// Packets that are to be sent, in this order.
pub type Packets = Seq<(SocketAddr, Seq<u8>)>;

/// A service at work: what the server knows, and what the service has yet to
/// send.
#[verifier::ext_equal]
pub struct ServiceModel {
    pub peers: Peers,
    pub unsent: Packets,
}

/// Whether a service that is to send `queue` asks for `action` and then has
/// `unsent` left: it sends the first packet, or reads on if there is none.
pub open spec fn sends(queue: Packets, unsent: Packets, action: ServiceActionModel) -> bool {
    if queue.len() > 0 {
        &&& action == (ServiceActionModel::Send { to: queue[0].0, bytes: queue[0].1 })
        &&& unsent == queue.skip(1)
    } else {
        action == ServiceActionModel::Receive && unsent == queue
    }
}

/// Whether `queue` is `unsent` and behind it what the server answers to the
/// message `m` from `from`.
pub open spec fn queues(
    peers: Peers,
    from: SocketAddr,
    m: MessageModel,
    unsent: Packets,
    queue: Packets,
) -> bool {
    exists|replies: Replies| #[trigger]
        server::answers(peers, from, m, replies) && server::sendable(replies) && queue == unsent
            + server::packets(replies)
}

/// Whether an event turns the service `before` into `after` and makes it ask
/// for `action`. A packet that cannot be sent keeps those behind it from being
/// sent. A datagram that carries no message is passed over.
pub open spec fn advances(
    before: ServiceModel,
    event: IoEvent,
    now: Duration,
    after: ServiceModel,
    action: ServiceActionModel,
) -> bool {
    match event {
        IoEvent::Done => after.peers == before.peers && sends(before.unsent, after.unsent, action),
        IoEvent::SendFailed(_) => after.peers == before.peers && sends(
            Packets::empty(),
            after.unsent,
            action,
        ),
        IoEvent::Read(RecvOutcome::Received { data, from }) => match protocol::decoded(data@) {
            Some(m) => {
                &&& server::updates(before.peers, from, m, now, after.peers)
                &&& exists|queue: Packets| #[trigger]
                    queues(before.peers, from, m, before.unsent, queue) && sends(
                        queue,
                        after.unsent,
                        action,
                    )
            },
            None => after.peers == before.peers && sends(before.unsent, after.unsent, action),
        },
        IoEvent::Read(RecvOutcome::TimedOut) => after.peers == before.peers && sends(
            before.unsent,
            after.unsent,
            action,
        ),
        IoEvent::Read(RecvOutcome::Failed(error)) => after == before && action
            == ServiceActionModel::Stop(error),
    }
}

/// The addresses and bytes of some datagrams.
pub open spec fn contents(list: Seq<Datagram>) -> Packets {
    list.map_values(|one: Datagram| one@)
}

/// What is to be sent for the rendezvous server.
pub struct Service {
    unsent: VecDeque<Datagram>,
}

impl View for Service {
    type V = Packets;

    closed spec fn view(&self) -> Packets {
        contents(self.unsent@)
    }
}

impl Service {
    /// A service that has nothing to send. It is to read.
    pub fn new() -> (service: Service)
        ensures
            service@ == Packets::empty(),
    {
        let service = Service { unsent: VecDeque::new() };
        assert(contents(service.unsent@) =~= Packets::empty());
        service
    }

    /// Sends the next packet, or reads on if there is none.
    fn send_next(&mut self) -> (action: ServiceAction)
        ensures
            sends(old(self)@, final(self)@, action@),
    {
        let ghost before = contents(self.unsent@);
        match self.unsent.pop_front() {
            Some(packet) => {
                assert(before[0] == packet@);
                assert(contents(self.unsent@) =~= before.skip(1));
                ServiceAction::Send { packet }
            },
            None => ServiceAction::Receive,
        }
    }

    /// Puts packets behind those that are unsent.
    fn queue(&mut self, packets: Vec<Datagram>)
        ensures
            final(self)@ == old(self)@ + contents(packets@),
    {
        let ghost before = contents(self.unsent@);
        let ghost all = contents(packets@);
        for packet in iter: packets
            invariant
                all == contents(iter.seq()),
                contents(self.unsent@) == before + all.take(iter.index()),
        {
            let ghost earlier = contents(self.unsent@);
            self.unsent.push_back(packet);
            assert(contents(self.unsent@) =~= earlier.push(packet@));
            assert(all.take(iter.index() + 1) =~= all.take(iter.index()).push(packet@));
        }
        assert(all.take(all.len() as int) =~= all);
    }

    /// Takes in what came of the last action, and when, and says what to do next
    /// for `server`.
    pub fn advance(&mut self, server: &mut RendezvousServer, event: IoEvent, now: Duration) -> (action:
        ServiceAction)
        requires
            old(server).wf(),
        ensures
            final(server).wf(),
            advances(
                ServiceModel { peers: old(server)@, unsent: old(self)@ },
                event,
                now,
                ServiceModel { peers: final(server)@, unsent: final(self)@ },
                action@,
            ),
    {
        match event {
            IoEvent::Done => self.send_next(),
            IoEvent::SendFailed(_) => {
                self.unsent = VecDeque::new();
                assert(contents(self.unsent@) =~= Packets::empty());
                self.send_next()
            },
            IoEvent::Read(RecvOutcome::Received { data, from }) => {
                match server.handle_datagram(from, data.as_slice(), now) {
                    Ok(packets) => self.queue(packets),
                    Err(_) => {},
                }
                let ghost queue = self@;
                let action = self.send_next();
                proof {
                    if let Some(m) = protocol::decoded(data@) {
                        let before = ServiceModel { peers: old(server)@, unsent: old(self)@ };
                        assert(queues(before.peers, from, m, before.unsent, queue));
                        assert(sends(queue, self@, action@));
                    }
                }
                action
            },
            IoEvent::Read(RecvOutcome::TimedOut) => self.send_next(),
            IoEvent::Read(RecvOutcome::Failed(error)) => ServiceAction::Stop(error),
        }
    }
}

} // verus!
