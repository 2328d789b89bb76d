//! A peer's side: requests to the rendezvous server, and what its answers mean.
//!
//! The client here touches no socket. A request gives back the datagram to
//! send. While the answer is awaited, each outcome of a read is handed to the
//! method that belongs to the request, until that method says how it ended.
use std::collections::VecDeque;

use vstd::prelude::*;

use crate::addr::SocketAddr;
use crate::duration::{Duration, NANOS_PER_SEC};
use crate::error::HolePunchError;
use crate::event::RecvOutcome;
use crate::hole_punch;
use crate::hole_punch::{punch_hole, PunchConfig, PunchSession, SessionModel};
use crate::protocol;
use crate::protocol::{datagram, decode, Datagram, Message, MessageModel};

verus! {

/// A peer that wants to reach us.
#[derive(Debug, Clone)]
pub struct IncomingConnection {
    pub peer_id: String,
    pub peer_addr: SocketAddr,
}

impl View for IncomingConnection {
    type V = (Seq<char>, SocketAddr);

    open spec fn view(&self) -> (Seq<char>, SocketAddr) {
        (self.peer_id@, self.peer_addr)
    }
}

/// A peer that we have reached.
#[derive(Debug, Clone)]
pub struct PeerConnection {
    pub peer_id: String,
    pub peer_addr: SocketAddr,
}

/// What a read means to a client.
pub enum Heard {
    /// Nothing: the packet is not from the server, or carries no message.
    Nothing,
    /// The server sent a message.
    Message(MessageModel),
    /// The read failed.
    Failure(HolePunchError),
}

/// What the outcome of a read means to a client of `server`.
pub open spec fn heard(server: SocketAddr, outcome: RecvOutcome) -> Heard {
    match outcome {
        RecvOutcome::Received { data, from } => if from == server {
            match protocol::decoded(data@) {
                Some(m) => Heard::Message(m),
                None => Heard::Nothing,
            }
        } else {
            Heard::Nothing
        },
        RecvOutcome::Failed(error) => Heard::Failure(HolePunchError::Io(error)),
        RecvOutcome::TimedOut => Heard::Failure(HolePunchError::Timeout),
    }
}

/// A client, over mathematical values.
#[verifier::ext_equal]
pub struct ClientModel {
    pub server: SocketAddr,
    pub peer_id: Seq<char>,
    pub public_addr: SocketAddr,
    /// The peers that want to reach us, the earliest first.
    pub pending: Seq<(Seq<char>, SocketAddr)>,
    pub config: PunchConfig,
    pub recv_timeout: Duration,
}

impl ClientModel {
    /// The client with other settings for hole punches.
    pub open spec fn configured(self, config: PunchConfig) -> ClientModel {
        ClientModel { config, ..self }
    }

    /// The client with another timeout for answers.
    pub open spec fn patient(self, recv_timeout: Duration) -> ClientModel {
        ClientModel { recv_timeout, ..self }
    }

    /// The client under another identifier.
    pub open spec fn named(self, peer_id: Seq<char>) -> ClientModel {
        ClientModel { peer_id, ..self }
    }

    /// The client that the server saw at `public_addr`.
    pub open spec fn seen_at(self, public_addr: SocketAddr) -> ClientModel {
        ClientModel { public_addr, ..self }
    }

    /// The client without the earliest of the peers that want to reach it.
    pub open spec fn accepted(self) -> ClientModel {
        ClientModel { pending: self.pending.skip(1), ..self }
    }

    /// The hole punch at `peer_addr` with the settings of the client.
    pub open spec fn punch(self, peer_addr: SocketAddr) -> SessionModel {
        hole_punch::beginning(peer_addr, self.config)
    }

    /// The client with one more peer that wants to reach it.
    pub open spec fn queue(self, peer_id: Seq<char>, peer_addr: SocketAddr) -> ClientModel {
        ClientModel { pending: self.pending.push((peer_id, peer_addr)), ..self }
    }

    /// The client after a message from the server that is not what it waits
    /// for: a request of another peer is kept, everything else is passed over.
    pub open spec fn pass_over(self, m: MessageModel) -> ClientModel {
        match m {
            MessageModel::PunchRequest { from_peer_id, from_addr } => self.queue(
                from_peer_id,
                from_addr,
            ),
            _ => self,
        }
    }
}

/// The texts and addresses of queued connections.
pub open spec fn connections(list: Seq<IncomingConnection>) -> Seq<(Seq<char>, SocketAddr)> {
    list.map_values(|one: IncomingConnection| one@)
}

/// A client of the rendezvous server.
pub struct HolePunchClient {
    server_addr: SocketAddr,
    my_peer_id: String,
    my_public_addr: SocketAddr,
    pending_incoming: VecDeque<IncomingConnection>,
    punch_config: PunchConfig,
    recv_timeout: Duration,
}

impl View for HolePunchClient {
    type V = ClientModel;

    closed spec fn view(&self) -> ClientModel {
        ClientModel {
            server: self.server_addr,
            peer_id: self.my_peer_id@,
            public_addr: self.my_public_addr,
            pending: connections(self.pending_incoming@),
            config: self.punch_config,
            recv_timeout: self.recv_timeout,
        }
    }
}

/// The address of a client that has not registered.
pub open spec fn unspecified_addr() -> SocketAddr {
    SocketAddr::V4 { octets: [0, 0, 0, 0], port: 0 }
}

impl HolePunchClient {
    /// Create a client of the server at `server_addr`.
    pub fn new(server_addr: SocketAddr) -> (client: HolePunchClient)
        ensures
            client@.server == server_addr,
            client@.peer_id == Seq::<char>::empty(),
            client@.public_addr == unspecified_addr(),
            client@.pending == Seq::<(Seq<char>, SocketAddr)>::empty(),
            client@.config.is_default(),
            client@.recv_timeout@ == 30 * NANOS_PER_SEC as nat,
    {
        let client = HolePunchClient {
            server_addr,
            my_peer_id: String::new(),
            my_public_addr: SocketAddr::V4 { octets: [0, 0, 0, 0], port: 0 },
            pending_incoming: VecDeque::new(),
            punch_config: PunchConfig::default(),
            recv_timeout: Duration::from_secs(30),
        };
        assert(connections(client.pending_incoming@) =~= Seq::empty());
        client
    }

    // -- Configuration -------------------------------------------------------

    pub fn set_punch_config(&mut self, config: PunchConfig)
        ensures
            final(self)@ == old(self)@.configured(config),
    {
        self.punch_config = config;
    }

    pub fn punch_config(&self) -> (config: &PunchConfig)
        ensures
            *config == self@.config,
    {
        &self.punch_config
    }

    pub fn set_recv_timeout(&mut self, timeout: Duration)
        ensures
            final(self)@ == old(self)@.patient(timeout),
    {
        self.recv_timeout = timeout;
    }

    /// How long to wait for a packet while an answer is awaited.
    pub fn recv_timeout(&self) -> (timeout: Duration)
        ensures
            timeout == self@.recv_timeout,
    {
        self.recv_timeout
    }

    // -- Accessors -----------------------------------------------------------

    pub fn public_addr(&self) -> (addr: SocketAddr)
        ensures
            addr == self@.public_addr,
    {
        self.my_public_addr
    }

    pub fn peer_id(&self) -> (peer_id: String)
        ensures
            peer_id@ == self@.peer_id,
    {
        self.my_peer_id.clone()
    }

    // -- Reading -------------------------------------------------------------

    /// What the outcome of a read means: a message from the server, a failure,
    /// or nothing, after which to read on.
    fn recv_msg_from_server(&self, outcome: RecvOutcome) -> (got: Option<
        Result<Message, HolePunchError>,
    >)
        ensures
            match heard(self@.server, outcome) {
                Heard::Nothing => got is None,
                Heard::Message(m) => got matches Some(Ok(msg)) && msg@ == m,
                Heard::Failure(error) => got == Some(Err::<Message, HolePunchError>(error)),
            },
    {
        match outcome {
            RecvOutcome::Received { data, from } => {
                if from != self.server_addr {
                    return None;
                }
                match decode(data.as_slice()) {
                    Ok(msg) => Some(Ok(msg)),
                    Err(_) => None,
                }
            },
            RecvOutcome::Failed(error) => Some(Err(HolePunchError::Io(error))),
            RecvOutcome::TimedOut => Some(Err(HolePunchError::Timeout)),
        }
    }

    /// Keeps the request of another peer, and passes over everything else.
    fn pass_over(&mut self, msg: Message)
        ensures
            final(self)@ == old(self)@.pass_over(msg@),
    {
        if let Message::PunchRequest { from_peer_id, from_addr } = msg {
            let conn = IncomingConnection { peer_id: from_peer_id, peer_addr: from_addr };
            let ghost before = connections(self.pending_incoming@);
            self.pending_incoming.push_back(conn);
            assert(connections(self.pending_incoming@) =~= before.push(conn@));
        }
    }

    // -- Registration --------------------------------------------------------

    /// Register with the rendezvous server. The answer is awaited with
    /// [`HolePunchClient::on_register`].
    pub fn register(&mut self, peer_id: &str) -> (request: Datagram)
        ensures
            final(self)@ == old(self)@.named(peer_id@),
            request@ == (old(self)@.server, (MessageModel::Register { peer_id: peer_id@ }).wire()),
            (MessageModel::Register { peer_id: peer_id@ }).lengths_fit(),
    {
        self.my_peer_id = peer_id.to_owned();
        datagram(self.server_addr, &Message::Register { peer_id: peer_id.to_owned() })
    }

    /// Takes in a read after a registration. It ends with the public address
    /// observed by the server.
    pub fn on_register(&mut self, outcome: RecvOutcome) -> (end: Option<
        Result<SocketAddr, HolePunchError>,
    >)
        ensures
            match heard(old(self)@.server, outcome) {
                Heard::Nothing => end is None && final(self)@ == old(self)@,
                Heard::Failure(error) => end == Some(Err::<SocketAddr, HolePunchError>(error))
                    && final(self)@ == old(self)@,
                Heard::Message(m) => match m {
                    MessageModel::RegisterAck { public_addr } => end == Some(
                        Ok::<SocketAddr, HolePunchError>(public_addr),
                    ) && final(self)@ == old(self)@.seen_at(public_addr),
                    MessageModel::Error { message } => end is Some && end->0 is Err
                        && server_error(end->0->Err_0, message) && final(self)@ == old(self)@,
                    _ => end is None && final(self)@ == old(self)@.pass_over(m),
                },
            },
    {
        match self.recv_msg_from_server(outcome) {
            None => None,
            Some(Err(error)) => Some(Err(error)),
            Some(Ok(Message::RegisterAck { public_addr })) => {
                self.my_public_addr = public_addr;
                Some(Ok(public_addr))
            },
            Some(Ok(Message::Error { message })) => Some(Err(HolePunchError::Server(message))),
            Some(Ok(msg)) => {
                self.pass_over(msg);
                None
            },
        }
    }

    // -- Connection ----------------------------------------------------------

    /// Request a connection to `target_peer_id`. The answer is awaited with
    /// [`HolePunchClient::on_connect`].
    pub fn connect_to_peer(&self, target_peer_id: &str) -> (request: Datagram)
        ensures
            request@ == (
                self@.server,
                (MessageModel::ConnectRequest {
                    target_peer_id: target_peer_id@,
                    requester_peer_id: self@.peer_id,
                }).wire(),
            ),
            (MessageModel::ConnectRequest {
                target_peer_id: target_peer_id@,
                requester_peer_id: self@.peer_id,
            }).lengths_fit(),
    {
        datagram(
            self.server_addr,
            &Message::ConnectRequest {
                target_peer_id: target_peer_id.to_owned(),
                requester_peer_id: self.peer_id(),
            },
        )
    }

    /// Takes in a read after a request for a connection. It ends with the
    /// target's socket address.
    pub fn on_connect(&mut self, outcome: RecvOutcome) -> (end: Option<
        Result<SocketAddr, HolePunchError>,
    >)
        ensures
            match heard(old(self)@.server, outcome) {
                Heard::Nothing => end is None && final(self)@ == old(self)@,
                Heard::Failure(error) => end == Some(Err::<SocketAddr, HolePunchError>(error))
                    && final(self)@ == old(self)@,
                Heard::Message(m) => match m {
                    MessageModel::ConnectResponse { peer_addr, .. } => end == Some(
                        Ok::<SocketAddr, HolePunchError>(peer_addr),
                    ) && final(self)@ == old(self)@,
                    MessageModel::Error { message } => end is Some && end->0 is Err
                        && server_error(end->0->Err_0, message) && final(self)@ == old(self)@,
                    _ => end is None && final(self)@ == old(self)@.pass_over(m),
                },
            },
    {
        match self.recv_msg_from_server(outcome) {
            None => None,
            Some(Err(error)) => Some(Err(error)),
            Some(Ok(Message::ConnectResponse { peer_addr, .. })) => Some(Ok(peer_addr)),
            Some(Ok(Message::Error { message })) => Some(Err(HolePunchError::Server(message))),
            Some(Ok(msg)) => {
                self.pass_over(msg);
                None
            },
        }
    }

    /// The earliest of the peers that asked to reach us. If there is none, one
    /// is awaited with [`HolePunchClient::on_accept`].
    pub fn accept_incoming(&mut self) -> (incoming: Option<IncomingConnection>)
        ensures
            if old(self)@.pending.len() > 0 {
                &&& incoming is Some
                &&& incoming->0@ == old(self)@.pending[0]
                &&& final(self)@ == old(self)@.accepted()
            } else {
                incoming is None && final(self)@ == old(self)@
            },
    {
        let incoming = self.pending_incoming.pop_front();
        proof {
            let before = connections(old(self).pending_incoming@);
            if incoming is Some {
                assert(before[0] == incoming->0@);
                assert(connections(self.pending_incoming@) =~= before.skip(1));
            }
        }
        incoming
    }

    /// Takes in a read while another peer is awaited.
    pub fn on_accept(&self, outcome: RecvOutcome) -> (end: Option<
        Result<IncomingConnection, HolePunchError>,
    >)
        ensures
            match heard(self@.server, outcome) {
                Heard::Nothing => end is None,
                Heard::Failure(error) => end == Some(
                    Err::<IncomingConnection, HolePunchError>(error),
                ),
                Heard::Message(m) => match m {
                    MessageModel::PunchRequest { from_peer_id, from_addr } => end is Some
                        && end->0 is Ok && end->0->Ok_0@ == (from_peer_id, from_addr),
                    _ => end is None,
                },
            },
    {
        match self.recv_msg_from_server(outcome) {
            None => None,
            Some(Err(error)) => Some(Err(error)),
            Some(Ok(Message::PunchRequest { from_peer_id, from_addr })) => Some(
                Ok(IncomingConnection { peer_id: from_peer_id, peer_addr: from_addr }),
            ),
            Some(Ok(_)) => None,
        }
    }

    /// Check for queued incoming connections without blocking.
    pub fn has_pending_incoming(&self) -> (some: bool)
        ensures
            some == (self@.pending.len() > 0),
    {
        self.pending_incoming.len() > 0
    }

    // -- Hole punching -------------------------------------------------------

    /// Begins the hole punch against `peer_addr` using the stored config.
    pub fn punch_to(&self, peer_addr: SocketAddr) -> (session: PunchSession)
        requires
            hole_punch::ports_exist(peer_addr, self@.config),
        ensures
            session.wf(),
            session@ == self@.punch(peer_addr),
    {
        punch_hole(peer_addr, &self.punch_config)
    }

    // -- Heartbeat / keep-alive ----------------------------------------------

    pub fn send_heartbeat(&self) -> (request: Datagram)
        ensures
            request@ == (self@.server, MessageModel::Heartbeat.wire()),
    {
        datagram(self.server_addr, &Message::Heartbeat)
    }

    // -- Relay ---------------------------------------------------------------

    /// Send data through the server to `target_peer_id` (TURN-like fallback).
    pub fn relay_to(&self, target_peer_id: &str, data: Vec<u8>) -> (request: Datagram)
        ensures
            request@ == (
                self@.server,
                (MessageModel::RelayData { target_peer_id: target_peer_id@, data: data@ }).wire(),
            ),
            (MessageModel::RelayData {
                target_peer_id: target_peer_id@,
                data: data@,
            }).lengths_fit(),
    {
        datagram(
            self.server_addr,
            &Message::RelayData { target_peer_id: target_peer_id.to_owned(), data },
        )
    }

    // -- Peer discovery ------------------------------------------------------

    /// Request the identifiers of all peers. The answer is awaited with
    /// [`HolePunchClient::on_list`].
    pub fn list_peers(&self) -> (request: Datagram)
        ensures
            request@ == (self@.server, MessageModel::ListPeers.wire()),
    {
        datagram(self.server_addr, &Message::ListPeers)
    }

    /// Takes in a read after a request for the peers.
    pub fn on_list(&mut self, outcome: RecvOutcome) -> (end: Option<
        Result<Vec<String>, HolePunchError>,
    >)
        ensures
            match heard(old(self)@.server, outcome) {
                Heard::Nothing => end is None && final(self)@ == old(self)@,
                Heard::Failure(error) => end == Some(Err::<Vec<String>, HolePunchError>(error))
                    && final(self)@ == old(self)@,
                Heard::Message(m) => match m {
                    MessageModel::PeerList { peers } => end is Some && end->0 is Ok
                        && protocol::texts(end->0->Ok_0@) == peers && final(self)@ == old(self)@,
                    MessageModel::Error { message } => end is Some && end->0 is Err
                        && server_error(end->0->Err_0, message) && final(self)@ == old(self)@,
                    _ => end is None && final(self)@ == old(self)@.pass_over(m),
                },
            },
    {
        match self.recv_msg_from_server(outcome) {
            None => None,
            Some(Err(error)) => Some(Err(error)),
            Some(Ok(Message::PeerList { peers })) => Some(Ok(peers)),
            Some(Ok(Message::Error { message })) => Some(Err(HolePunchError::Server(message))),
            Some(Ok(msg)) => {
                self.pass_over(msg);
                None
            },
        }
    }

    /// What a packet says, whoever sent it.
    pub fn recv_any(&self, received: Result<(Vec<u8>, SocketAddr), std::io::Error>) -> (got: Result<
        (Message, SocketAddr),
        HolePunchError,
    >)
        ensures
            match received {
                Ok((data, from)) => match protocol::decoded(data@) {
                    Some(m) => got is Ok && got->Ok_0.0@ == m && got->Ok_0.1 == from,
                    None => got is Err && got->Err_0 is Serialization,
                },
                Err(error) => got == Err::<(Message, SocketAddr), HolePunchError>(
                    HolePunchError::Io(error),
                ),
            },
    {
        match received {
            Ok((data, from)) => match decode(data.as_slice()) {
                Ok(msg) => Ok((msg, from)),
                Err(error) => Err(HolePunchError::Serialization(error)),
            },
            Err(error) => Err(HolePunchError::Io(error)),
        }
    }
}

/// Whether `error` passes on the error message `text` of the server.
pub open spec fn server_error(error: HolePunchError, text: Seq<char>) -> bool {
    error matches HolePunchError::Server(message) && message@ == text
}

} // verus!
