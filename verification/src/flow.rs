//! The whole way from a peer that nobody knows to a peer that is reached:
//! register, ask for the other peer or wait to be asked for, and punch.
//!
//! A flow touches no socket and no clock. It says what to do next, and is told
//! what came of it and when.
use vstd::prelude::*;

use crate::addr::SocketAddr;
use crate::client;
use crate::client::{ClientModel, Heard, HolePunchClient, PeerConnection};
use crate::duration::{Duration, NANOS_PER_SEC};
use crate::error::HolePunchError;
use crate::event::IoEvent;
use crate::hole_punch::{ActionModel, PunchAction, PunchSession, SessionModel};
use crate::protocol::{Datagram, MessageModel};

verus! {

/// What to do next.
#[derive(Debug)]
pub enum FlowAction {
    /// Send a packet.
    Send { packet: Datagram },
    /// Let some time pass.
    Sleep { delay: Duration },
    /// Wait for a packet, but no longer than this.
    Receive { timeout: Duration },
    /// Stop: a peer is reached, or none is.
    Finish(Result<PeerConnection, HolePunchError>),
}

/// How a flow ends.
pub enum FlowEnd {
    /// A peer is reached.
    Reached { peer_id: Seq<char>, peer_addr: SocketAddr },
    /// The server answered with an error message.
    Refused { message: Seq<char> },
    /// Something else went wrong.
    Failed(HolePunchError),
}

/// An action, over mathematical values.
pub enum FlowActionModel {
    Send { to: SocketAddr, bytes: Seq<u8> },
    Sleep { nanos: nat },
    Receive { nanos: nat },
    Finish(FlowEnd),
}

/// The end that an error makes.
pub open spec fn error_end(error: HolePunchError) -> FlowEnd {
    match error {
        HolePunchError::Server(message) => FlowEnd::Refused { message: message@ },
        _ => FlowEnd::Failed(error),
    }
}

impl View for FlowAction {
    type V = FlowActionModel;

    open spec fn view(&self) -> FlowActionModel {
        match *self {
            FlowAction::Send { packet } => FlowActionModel::Send {
                to: packet.to,
                bytes: packet.bytes@,
            },
            FlowAction::Sleep { delay } => FlowActionModel::Sleep { nanos: delay@ },
            FlowAction::Receive { timeout } => FlowActionModel::Receive { nanos: timeout@ },
            FlowAction::Finish(Ok(peer)) => FlowActionModel::Finish(
                FlowEnd::Reached { peer_id: peer.peer_id@, peer_addr: peer.peer_addr },
            ),
            FlowAction::Finish(Err(error)) => FlowActionModel::Finish(error_end(error)),
        }
    }
}

/// What an action of the hole punch at `peer_id` means for the flow.
pub open spec fn punch_action(peer_id: Seq<char>, action: ActionModel) -> FlowActionModel {
    match action {
        ActionModel::Send { to, bytes } => FlowActionModel::Send { to, bytes },
        ActionModel::Sleep { nanos } => FlowActionModel::Sleep { nanos },
        ActionModel::Receive { nanos } => FlowActionModel::Receive { nanos },
        ActionModel::Finish(Ok(peer_addr)) => FlowActionModel::Finish(
            FlowEnd::Reached { peer_id, peer_addr },
        ),
        ActionModel::Finish(Err(error)) => FlowActionModel::Finish(error_end(error)),
    }
}

/// Where a flow stands.
#[verifier::ext_equal]
pub enum FlowStage {
    /// It waits for the answer to its registration.
    Registering,
    /// It waits for the address of the peer that it asked for.
    Connecting { target: Seq<char> },
    /// It waits for a peer that asks for it.
    Accepting,
    /// It punches.
    Punching { peer_id: Seq<char>, session: SessionModel },
    /// It is over.
    Finished,
}

/// A flow: the client, whom it is to reach, if not whoever asks, and where it
/// stands.
#[verifier::ext_equal]
pub struct FlowModel {
    pub client: ClientModel,
    pub target: Option<Seq<char>>,
    pub stage: FlowStage,
}

impl FlowModel {
    /// Whether the request whose answer the flow waits for can be encoded.
    pub open spec fn request_fits(self) -> bool {
        match self.stage {
            FlowStage::Registering => (MessageModel::Register {
                peer_id: self.client.peer_id,
            }).lengths_fit(),
            FlowStage::Connecting { target } => (MessageModel::ConnectRequest {
                target_peer_id: target,
                requester_peer_id: self.client.peer_id,
            }).lengths_fit(),
            _ => true,
        }
    }

    /// The flow at another stage.
    pub open spec fn at(self, stage: FlowStage) -> FlowModel {
        FlowModel { stage, ..self }
    }

    /// The flow with another client.
    pub open spec fn with_client(self, client: ClientModel) -> FlowModel {
        FlowModel { client, ..self }
    }

    /// The end of the flow.
    pub open spec fn finish(self, end: FlowEnd) -> (FlowModel, FlowActionModel) {
        (self.at(FlowStage::Finished), FlowActionModel::Finish(end))
    }

    /// A wait for the server.
    pub open spec fn receive(self) -> (FlowModel, FlowActionModel) {
        (self, FlowActionModel::Receive { nanos: self.client.recv_timeout@ })
    }

    /// What becomes of a step of the hole punch at `peer_id`.
    pub open spec fn punch_step(
        self,
        peer_id: Seq<char>,
        step: (SessionModel, ActionModel),
    ) -> (FlowModel, FlowActionModel) {
        if step.1 is Finish {
            (self.at(FlowStage::Finished), punch_action(peer_id, step.1))
        } else {
            (
                self.at(FlowStage::Punching { peer_id, session: step.0 }),
                punch_action(peer_id, step.1),
            )
        }
    }

    /// The first step of the hole punch.
    pub open spec fn punch(self, peer_id: Seq<char>, peer_addr: SocketAddr, now: Duration) -> (
        FlowModel,
        FlowActionModel,
    ) {
        let session = self.client.punch(peer_addr);
        self.punch_step(peer_id, session.next(IoEvent::Done, now))
    }

    /// What follows the registration: to ask for the target; or, without one,
    /// to take the earliest peer that asked, or to wait for one.
    pub open spec fn pursue(self, now: Duration) -> (FlowModel, FlowActionModel) {
        match self.target {
            Some(target) => (
                self.at(FlowStage::Connecting { target }),
                FlowActionModel::Send {
                    to: self.client.server,
                    bytes: (MessageModel::ConnectRequest {
                        target_peer_id: target,
                        requester_peer_id: self.client.peer_id,
                    }).wire(),
                },
            ),
            None => if self.client.pending.len() > 0 {
                self.with_client(self.client.accepted()).punch(self.client.pending[0].0, self.client.pending[0].1, now)
            } else {
                self.at(FlowStage::Accepting).receive()
            },
        }
    }

    /// What the flow does upon a message from the server.
    pub open spec fn hear(self, m: MessageModel, now: Duration) -> (FlowModel, FlowActionModel) {
        match (self.stage, m) {
            (
                FlowStage::Registering,
                MessageModel::RegisterAck { public_addr },
            ) => self.with_client(self.client.seen_at(public_addr)).pursue(now),
            (FlowStage::Registering, MessageModel::Error { message }) => self.finish(
                FlowEnd::Refused { message },
            ),
            (
                FlowStage::Connecting { target },
                MessageModel::ConnectResponse { peer_addr, .. },
            ) => self.punch(target, peer_addr, now),
            (FlowStage::Connecting { .. }, MessageModel::Error { message }) => self.finish(
                FlowEnd::Refused { message },
            ),
            (
                FlowStage::Accepting,
                MessageModel::PunchRequest { from_peer_id, from_addr },
            ) => self.punch(from_peer_id, from_addr, now),
            (FlowStage::Accepting, _) => self.receive(),
            _ => self.with_client(self.client.pass_over(m)).receive(),
        }
    }

    /// What the flow does upon an event.
    pub open spec fn next(self, event: IoEvent, now: Duration) -> (FlowModel, FlowActionModel) {
        match self.stage {
            FlowStage::Punching { peer_id, session } => self.punch_step(
                peer_id,
                session.next(event, now),
            ),
            _ => match event {
                IoEvent::Done => self.receive(),
                IoEvent::SendFailed(error) => self.finish(
                    FlowEnd::Failed(HolePunchError::Io(error)),
                ),
                IoEvent::Read(outcome) => match client::heard(self.client.server, outcome) {
                    Heard::Nothing => self.receive(),
                    Heard::Failure(error) => self.finish(error_end(error)),
                    Heard::Message(m) => self.hear(m, now),
                },
            },
        }
    }
}

/// How far a flow has come.
enum Progress {
    Registering,
    Connecting { target: String },
    Accepting,
    Punching { peer_id: String, session: PunchSession },
    Finished,
}

/// A way to a peer that is under way.
pub struct Flow {
    client: HolePunchClient,
    target: Option<String>,
    progress: Progress,
}

impl View for Flow {
    type V = FlowModel;

    closed spec fn view(&self) -> FlowModel {
        FlowModel {
            client: self.client@,
            target: match self.target {
                Some(target) => Some(target@),
                None => None,
            },
            stage: match self.progress {
                Progress::Registering => FlowStage::Registering,
                Progress::Connecting { target } => FlowStage::Connecting { target: target@ },
                Progress::Accepting => FlowStage::Accepting,
                Progress::Punching { peer_id, session } => FlowStage::Punching {
                    peer_id: peer_id@,
                    session: session@,
                },
                Progress::Finished => FlowStage::Finished,
            },
        }
    }
}

/// A flow of a new client that has sent its registration.
pub open spec fn registering(
    flow: FlowModel,
    server_addr: SocketAddr,
    my_peer_id: Seq<char>,
    target: Option<Seq<char>>,
) -> bool {
    &&& flow.client.server == server_addr
    &&& flow.client.peer_id == my_peer_id
    &&& flow.client.public_addr == client::unspecified_addr()
    &&& flow.client.pending.len() == 0
    &&& flow.client.config.is_default()
    &&& flow.client.recv_timeout@ == 30 * NANOS_PER_SEC as nat
    &&& flow.target == target
    &&& flow.stage == FlowStage::Registering
}

/// Begins to register and to reach the peer `target_peer_id`. The datagram is
/// to be sent first; what came of it is told to [`Flow::advance`].
pub fn full_hole_punch(server_addr: SocketAddr, my_peer_id: &str, target_peer_id: &str) -> (begun: (
    Flow,
    Datagram,
))
    ensures
        begun.0.wf(),
        registering(begun.0@, server_addr, my_peer_id@, Some(target_peer_id@)),
        begun.0@.request_fits(),
        begun.1@ == (server_addr, (MessageModel::Register { peer_id: my_peer_id@ }).wire()),
{
    let mut client = HolePunchClient::new(server_addr);
    let request = client.register(my_peer_id);
    let flow = Flow {
        client,
        target: Some(target_peer_id.to_owned()),
        progress: Progress::Registering,
    };
    (flow, request)
}

/// Begins to register and to wait for a peer that asks for us. The datagram is
/// to be sent first; what came of it is told to [`Flow::advance`].
pub fn accept_and_punch(server_addr: SocketAddr, my_peer_id: &str) -> (begun: (Flow, Datagram))
    ensures
        begun.0.wf(),
        registering(begun.0@, server_addr, my_peer_id@, None),
        begun.0@.request_fits(),
        begun.1@ == (server_addr, (MessageModel::Register { peer_id: my_peer_id@ }).wire()),
{
    let mut client = HolePunchClient::new(server_addr);
    let request = client.register(my_peer_id);
    (Flow { client, target: None, progress: Progress::Registering }, request)
}

/// What an action of the hole punch at `peer_id` means for the flow.
fn flow_action(peer_id: String, action: PunchAction) -> (meant: FlowAction)
    ensures
        meant@ == punch_action(peer_id@, action@),
{
    match action {
        PunchAction::Send { packet } => FlowAction::Send { packet },
        PunchAction::Sleep { delay } => FlowAction::Sleep { delay },
        PunchAction::Receive { timeout } => FlowAction::Receive { timeout },
        PunchAction::Finish(Ok(peer_addr)) => FlowAction::Finish(
            Ok(PeerConnection { peer_id, peer_addr }),
        ),
        PunchAction::Finish(Err(error)) => FlowAction::Finish(Err(error)),
    }
}

impl Flow {
    /// Ports are not predicted, a hole punch that is under way is sound and not
    /// over, and a request that is awaited could be encoded.
    pub closed spec fn wf(&self) -> bool {
        &&& !self.client@.config.port_prediction
        &&& self.progress matches Progress::Punching { session, .. } ==> session.wf()
            && session@.stage !is Finished
        &&& self@.request_fits()
    }

    fn finish(&mut self, error: HolePunchError) -> (action: FlowAction)
        requires
            old(self).wf(),
        ensures
            final(self).wf(),
            (final(self)@, action@) == old(self)@.finish(error_end(error)),
    {
        self.progress = Progress::Finished;
        FlowAction::Finish(Err(error))
    }

    fn receive(&self) -> (action: FlowAction)
        ensures
            (self@, action@) == self@.receive(),
    {
        FlowAction::Receive { timeout: self.client.recv_timeout() }
    }

    /// Goes on with the hole punch.
    fn punch_step(
        &mut self,
        peer_id: String,
        session: PunchSession,
        event: IoEvent,
        now: Duration,
    ) -> (action: FlowAction)
        requires
            old(self).wf(),
            session.wf(),
            session@.stage !is Finished,
        ensures
            final(self).wf(),
            (final(self)@, action@) == old(self)@.punch_step(
                peer_id@,
                session@.next(event, now),
            ),
    {
        let mut session = session;
        let action = session.advance(event, now);
        match action {
            PunchAction::Finish(_) => {
                self.progress = Progress::Finished;
            },
            _ => {
                self.progress = Progress::Punching { peer_id: peer_id.clone(), session };
            },
        }
        flow_action(peer_id, action)
    }

    /// Begins the hole punch.
    fn punch(&mut self, peer_id: String, peer_addr: SocketAddr, now: Duration) -> (action:
        FlowAction)
        requires
            old(self).wf(),
        ensures
            final(self).wf(),
            (final(self)@, action@) == old(self)@.punch(peer_id@, peer_addr, now),
    {
        let session = self.client.punch_to(peer_addr);
        self.punch_step(peer_id, session, IoEvent::Done, now)
    }

    /// Goes on after the registration.
    fn pursue(&mut self, now: Duration) -> (action: FlowAction)
        requires
            old(self).wf(),
        ensures
            final(self).wf(),
            (final(self)@, action@) == old(self)@.pursue(now),
    {
        match &self.target {
            Some(target) => {
                let packet = self.client.connect_to_peer(target.as_str());
                self.progress = Progress::Connecting { target: target.clone() };
                FlowAction::Send { packet }
            },
            None => match self.client.accept_incoming() {
                Some(incoming) => self.punch(incoming.peer_id, incoming.peer_addr, now),
                None => {
                    self.progress = Progress::Accepting;
                    self.receive()
                },
            },
        }
    }

    /// Takes in what came of the last action, and when, and says what to do next.
    pub fn advance(&mut self, event: IoEvent, now: Duration) -> (action: FlowAction)
        requires
            old(self).wf(),
            old(self)@.stage !is Finished,
        ensures
            final(self).wf(),
            final(self)@.request_fits(),
            (final(self)@, action@) == old(self)@.next(event, now),
    {
        let mut progress = Progress::Finished;
        std::mem::swap(&mut self.progress, &mut progress);
        match progress {
            Progress::Punching { peer_id, session } => self.punch_step(
                peer_id,
                session,
                event,
                now,
            ),
            Progress::Finished => self.finish(HolePunchError::NoResponse),
            waiting => {
                let outcome = match event {
                    IoEvent::Done => {
                        self.progress = waiting;
                        return self.receive();
                    },
                    IoEvent::SendFailed(error) => return self.finish(HolePunchError::Io(error)),
                    IoEvent::Read(outcome) => outcome,
                };
                match waiting {
                    Progress::Registering => match self.client.on_register(outcome) {
                        None => {
                            self.progress = Progress::Registering;
                            self.receive()
                        },
                        Some(Err(error)) => self.finish(error),
                        Some(Ok(_)) => self.pursue(now),
                    },
                    Progress::Connecting { target } => match self.client.on_connect(outcome) {
                        None => {
                            self.progress = Progress::Connecting { target };
                            self.receive()
                        },
                        Some(Err(error)) => self.finish(error),
                        Some(Ok(peer_addr)) => self.punch(target, peer_addr, now),
                    },
                    _ => match self.client.on_accept(outcome) {
                        None => {
                            self.progress = Progress::Accepting;
                            self.receive()
                        },
                        Some(Err(error)) => self.finish(error),
                        Some(Ok(incoming)) => self.punch(
                            incoming.peer_id,
                            incoming.peer_addr,
                            now,
                        ),
                    },
                }
            },
        }
    }
}

} // verus!
