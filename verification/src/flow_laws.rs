//! What holds of the whole way to a peer, and of two peers that go it together.
use vstd::prelude::*;

use crate::addr::SocketAddr;
use crate::client;
use crate::client::{ClientModel, Heard};
use crate::client_laws;
use crate::duration::Duration;
use crate::error::HolePunchError;
use crate::event::{IoEvent, RecvOutcome};
use crate::flow;
use crate::flow::{FlowActionModel, FlowEnd, FlowModel, FlowStage};
use crate::hole_punch;
use crate::hole_punch::{ActionModel, PunchConfig, Stage};
use crate::hole_punch_laws;
use crate::protocol;
use crate::protocol::MessageModel;
use crate::rendezvous_laws;
use crate::server;
use crate::server::{Peers, Replies};
use crate::wire;

verus! {

/// Whether a flow goes through `states` and asks for `actions` as it takes in
/// `events`, each with its time.
pub open spec fn runs(
    states: Seq<FlowModel>,
    events: Seq<(IoEvent, Duration)>,
    actions: Seq<FlowActionModel>,
) -> bool {
    &&& states.len() == events.len() + 1
    &&& actions.len() == events.len()
    &&& forall|i: int|
        #![trigger actions[i]]
        0 <= i < events.len() ==> (states[i + 1], actions[i]) == states[i].next(
            events[i].0,
            events[i].1,
        )
}

/// Whether a flow that has a target is on its way to that target alone.
pub open spec fn on_course(state: FlowModel) -> bool {
    state.target matches Some(target) ==> match state.stage {
        FlowStage::Connecting { target: asked } => asked == target,
        FlowStage::Accepting => false,
        FlowStage::Punching { peer_id, .. } => peer_id == target,
        _ => true,
    }
}

proof fn lemma_stays_on_course(
    states: Seq<FlowModel>,
    events: Seq<(IoEvent, Duration)>,
    actions: Seq<FlowActionModel>,
    k: int,
)
    requires
        runs(states, events, actions),
        states[0].stage == FlowStage::Registering,
        0 <= k <= events.len(),
    ensures
        on_course(states[k]),
        states[k].target == states[0].target,
    decreases k,
{
    if k > 0 {
        lemma_stays_on_course(states, events, actions, k - 1);
        assert((states[k], actions[k - 1]) == states[k - 1].next(
            events[k - 1].0,
            events[k - 1].1,
        ));
    }
}

/// A flow that was begun to reach a peer reaches that peer or none.
pub proof fn law_reaches_its_target_or_nobody(
    states: Seq<FlowModel>,
    events: Seq<(IoEvent, Duration)>,
    actions: Seq<FlowActionModel>,
    target: Seq<char>,
    k: int,
    peer_id: Seq<char>,
    peer_addr: SocketAddr,
)
    requires
        runs(states, events, actions),
        states[0].stage == FlowStage::Registering,
        states[0].target == Some(target),
        0 <= k < events.len(),
        actions[k] == FlowActionModel::Finish(FlowEnd::Reached { peer_id, peer_addr }),
    ensures
        peer_id == target,
{
    lemma_stays_on_course(states, events, actions, k);
    assert((states[k + 1], actions[k]) == states[k].next(events[k].0, events[k].1));
}

/// A flow that registers, and reads what the server answers, is registered at
/// the address where the server saw it and knows that address. It then asks for
/// its target; or, without a target, it waits for a peer that asks for it,
/// unless one did so before.
pub proof fn law_registered_flow_goes_on(
    state: FlowModel,
    seen_at: SocketAddr,
    before: Peers,
    after: Peers,
    replies: Replies,
    outcome: RecvOutcome,
    now: Duration,
    later: Duration,
)
    requires
        state.stage == FlowStage::Registering,
        (MessageModel::Register { peer_id: state.client.peer_id }).lengths_fit(),
        protocol::decoded(
            (MessageModel::Register { peer_id: state.client.peer_id }).wire(),
        ) matches Some(m) && server::updates(before, seen_at, m, now, after) && server::answers(
            before,
            seen_at,
            m,
            replies,
        ),
        server::sendable(replies),
        rendezvous_laws::reads_reply(state.client.server, replies, 0, outcome),
    ensures
        server::registered_at(after, state.client.peer_id, seen_at),
        ({
            let (next, action) = state.next(IoEvent::Read(outcome), later);
            &&& next.client.public_addr == wire::addr_sent(seen_at)
            &&& state.target matches Some(target) ==> next.stage == (FlowStage::Connecting {
                target,
            }) && action == (FlowActionModel::Send {
                to: state.client.server,
                bytes: (MessageModel::ConnectRequest {
                    target_peer_id: target,
                    requester_peer_id: state.client.peer_id,
                }).wire(),
            })
            &&& state.target is None && state.client.pending.len() == 0 ==> next.stage
                == FlowStage::Accepting && action == (FlowActionModel::Receive {
                nanos: state.client.recv_timeout@,
            })
        }),
{
    rendezvous_laws::law_registration(
        state.client.server,
        state.client.peer_id,
        seen_at,
        now,
        before,
        after,
        replies,
        outcome,
    );
}

/// A peer that asked while a flow without a target was registering is the one
/// that it punches at first, once it is registered.
pub proof fn law_early_request_is_accepted_first(
    state: FlowModel,
    outcome: RecvOutcome,
    public_addr: SocketAddr,
    now: Duration,
)
    requires
        state.stage == FlowStage::Registering,
        state.target is None,
        state.client.config.is_default(),
        state.client.pending.len() > 0,
        client::heard(state.client.server, outcome) == Heard::Message(
            MessageModel::RegisterAck { public_addr },
        ),
    ensures
        ({
            let (next, action) = state.next(IoEvent::Read(outcome), now);
            let (peer_id, peer_addr) = state.client.pending[0];
            &&& punches_at(next, peer_id, peer_addr)
            &&& action == FlowActionModel::Send {
                to: peer_addr,
                bytes: MessageModel::PunchAck.wire(),
            }
            &&& next.client.pending == state.client.pending.skip(1)
        }),
{
    lemma_first_punch(
        state.with_client(state.client.seen_at(public_addr).accepted()),
        state.client.pending[0].0,
        state.client.pending[0].1,
        now,
    );
}

/// Whether a flow punches at the peer `peer_id` at `peer_addr`.
pub open spec fn punches_at(state: FlowModel, peer_id: Seq<char>, peer_addr: SocketAddr) -> bool {
    state.stage matches FlowStage::Punching { peer_id: id, session } && id == peer_id
        && session.peer == peer_addr
}

proof fn lemma_first_punch(
    state: FlowModel,
    peer_id: Seq<char>,
    peer_addr: SocketAddr,
    now: Duration,
)
    requires
        state.client.config.is_default(),
    ensures
        punches_at(state.punch(peer_id, peer_addr, now).0, peer_id, peer_addr),
        state.punch(peer_id, peer_addr, now).1 == (FlowActionModel::Send {
            to: peer_addr,
            bytes: MessageModel::PunchAck.wire(),
        }),
{
    let config = state.client.config;
    assert(hole_punch::schedule(peer_addr, config) =~= hole_punch::attempts(config));
    assert(hole_punch::attempts(config)[0] is Attempt);
}

/// The two peers are brought together: when the server answers a request of the
/// peer `requester` at `from` for the peer `target` at `target_addr`, and each
/// peer reads what was sent to it, then each sends its first punch packet at
/// the other's address.
pub proof fn law_both_peers_punch(
    peers: Peers,
    requester: FlowModel,
    from: SocketAddr,
    accepter: FlowModel,
    target: Seq<char>,
    target_addr: SocketAddr,
    replies: Replies,
    at_target: RecvOutcome,
    at_requester: RecvOutcome,
    now: Duration,
)
    requires
        requester.stage == (FlowStage::Connecting { target }),
        requester.client.config.is_default(),
        accepter.stage == FlowStage::Accepting,
        accepter.client.config.is_default(),
        accepter.client.server == requester.client.server,
        (MessageModel::ConnectRequest {
            target_peer_id: target,
            requester_peer_id: requester.client.peer_id,
        }).lengths_fit(),
        server::registered_at(peers, target, target_addr),
        protocol::decoded(
            (MessageModel::ConnectRequest {
                target_peer_id: target,
                requester_peer_id: requester.client.peer_id,
            }).wire(),
        ) matches Some(m) && server::answers(peers, from, m, replies),
        server::sendable(replies),
        rendezvous_laws::reads_reply(requester.client.server, replies, 0, at_target),
        rendezvous_laws::reads_reply(requester.client.server, replies, 1, at_requester),
    ensures
        ({
            let (next, action) = requester.next(IoEvent::Read(at_requester), now);
            &&& punches_at(next, target, wire::addr_sent(target_addr))
            &&& action == FlowActionModel::Send {
                to: wire::addr_sent(target_addr),
                bytes: MessageModel::PunchAck.wire(),
            }
        }),
        ({
            let (next, action) = accepter.next(IoEvent::Read(at_target), now);
            &&& punches_at(next, requester.client.peer_id, wire::addr_sent(from))
            &&& action == FlowActionModel::Send {
                to: wire::addr_sent(from),
                bytes: MessageModel::PunchAck.wire(),
            }
        }),
{
    rendezvous_laws::law_rendezvous(
        requester.client.server,
        peers,
        target,
        target_addr,
        requester.client.peer_id,
        from,
        replies,
        at_target,
        at_requester,
    );
    lemma_first_punch(requester, target, wire::addr_sent(target_addr), now);
    lemma_first_punch(accepter, requester.client.peer_id, wire::addr_sent(from), now);
}

/// A request for a peer that nobody registered ends the flow with the error
/// message of the server, which names that peer.
pub proof fn law_unknown_target_ends_flow(
    peers: Peers,
    requester: FlowModel,
    from: SocketAddr,
    target: Seq<char>,
    replies: Replies,
    outcome: RecvOutcome,
    now: Duration,
)
    requires
        requester.stage == (FlowStage::Connecting { target }),
        (MessageModel::ConnectRequest {
            target_peer_id: target,
            requester_peer_id: requester.client.peer_id,
        }).lengths_fit(),
        !peers.contains_key(target),
        protocol::decoded(
            (MessageModel::ConnectRequest {
                target_peer_id: target,
                requester_peer_id: requester.client.peer_id,
            }).wire(),
        ) matches Some(m) && server::answers(peers, from, m, replies),
        server::sendable(replies),
        rendezvous_laws::reads_reply(requester.client.server, replies, 0, outcome),
    ensures
        requester.next(IoEvent::Read(outcome), now) == requester.finish(
            FlowEnd::Refused { message: server::not_found_text(target) },
        ),
{
    rendezvous_laws::law_refusal(
        requester.client.server,
        peers,
        target,
        requester.client.peer_id,
        from,
        replies,
        outcome,
    );
}

/// A flow that punches and hears its peer, or a punch packet from elsewhere,
/// throws away what else came and ends with that peer at the address of the
/// sender.
pub proof fn law_heard_peer_is_reached(
    state: FlowModel,
    peer_id: Seq<char>,
    start: Duration,
    data: Vec<u8>,
    from: SocketAddr,
    now: Duration,
    later: Duration,
)
    requires
        state.stage matches FlowStage::Punching { peer_id: id, session } && id == peer_id
            && session.stage == (Stage::Listening { start }) && (from == session.peer
            || hole_punch_laws::is_punch_packet(data@)),
    ensures
        ({
            let (drained, wait) = state.next(
                IoEvent::Read(RecvOutcome::Received { data, from }),
                now,
            );
            &&& wait is Receive
            &&& drained.next(IoEvent::Read(RecvOutcome::TimedOut), later).1
                == FlowActionModel::Finish(FlowEnd::Reached { peer_id, peer_addr: from })
        }),
{
    hole_punch_laws::law_punch_packet(data@);
}

/// While a flow waits for the server, a packet from anyone else changes nothing.
pub proof fn law_strangers_are_ignored(
    state: FlowModel,
    data: Vec<u8>,
    from: SocketAddr,
    now: Duration,
)
    requires
        !(state.stage is Punching),
        from != state.client.server,
    ensures
        state.next(IoEvent::Read(RecvOutcome::Received { data, from }), now) == state.receive(),
        state.receive() == (
            state,
            FlowActionModel::Receive { nanos: state.client.recv_timeout@ },
        ),
{
}

/// Whether a flow waits for the server: for the answer to its registration or to
/// its request, or for a peer that asks for it.
pub open spec fn awaits_server(state: FlowModel) -> bool {
    state.stage is Registering || state.stage is Connecting || state.stage is Accepting
}

/// A flow that hears nothing from the server in time ends, at whatever stage it
/// waits.
pub proof fn law_silent_server_ends_flow(state: FlowModel, now: Duration)
    requires
        awaits_server(state),
    ensures
        state.next(IoEvent::Read(RecvOutcome::TimedOut), now) == (
            FlowModel { stage: FlowStage::Finished, ..state },
            FlowActionModel::Finish(FlowEnd::Failed(HolePunchError::Timeout)),
        ),
{
}

/// A flow whose socket fails, to send or to read, while it waits for the server
/// ends with that error.
pub proof fn law_broken_socket_ends_flow(state: FlowModel, error: std::io::Error, now: Duration)
    requires
        awaits_server(state),
    ensures
        state.next(IoEvent::Read(RecvOutcome::Failed(error)), now) == (
            FlowModel { stage: FlowStage::Finished, ..state },
            FlowActionModel::Finish(FlowEnd::Failed(HolePunchError::Io(error))),
        ),
        state.next(IoEvent::SendFailed(error), now) == (
            FlowModel { stage: FlowStage::Finished, ..state },
            FlowActionModel::Finish(FlowEnd::Failed(HolePunchError::Io(error))),
        ),
{
}

/// The flow as it is, and a wait for the server that lasts its receive timeout.
pub open spec fn waits_on(state: FlowModel) -> (FlowModel, FlowActionModel) {
    (state, FlowActionModel::Receive { nanos: state.client.recv_timeout@ })
}

/// Once its request is sent, a flow waits for the server. A packet that delivers
/// no message of the server, be it from a stranger or no message at all, leaves
/// it waiting as it was.
pub proof fn law_flow_waits_for_the_server(
    state: FlowModel,
    data: Vec<u8>,
    from: SocketAddr,
    now: Duration,
)
    requires
        awaits_server(state),
    ensures
        state.next(IoEvent::Done, now) == waits_on(state),
        (forall|m: MessageModel|
            !#[trigger] client_laws::delivers(
                state.client.server,
                RecvOutcome::Received { data, from },
                m,
            )) ==> state.next(IoEvent::Read(RecvOutcome::Received { data, from }), now)
            == waits_on(state),
        from != state.client.server ==> state.next(
            IoEvent::Read(RecvOutcome::Received { data, from }),
            now,
        ) == waits_on(state),
{
    client_laws::law_nothing_is_heard(state.client.server, data, from);
}

/// While a flow waits for the answer to its registration or to its request, the
/// request of another peer is put behind those that are there, and the flow waits
/// on; an error message of the server ends it with that message; and every other
/// message but the answer leaves it waiting as it was.
pub proof fn law_messages_before_the_answer(
    state: FlowModel,
    outcome: RecvOutcome,
    m: MessageModel,
    now: Duration,
)
    requires
        state.stage is Registering && !(m is RegisterAck) || state.stage is Connecting && !(
        m is ConnectResponse),
        client_laws::delivers(state.client.server, outcome, m),
    ensures
        m matches MessageModel::PunchRequest { from_peer_id, from_addr } ==> state.next(
            IoEvent::Read(outcome),
            now,
        ) == waits_on(
            FlowModel {
                client: ClientModel {
                    pending: state.client.pending.push((from_peer_id, from_addr)),
                    ..state.client
                },
                ..state
            },
        ),
        m matches MessageModel::Error { message } ==> state.next(IoEvent::Read(outcome), now) == (
            FlowModel { stage: FlowStage::Finished, ..state },
            FlowActionModel::Finish(FlowEnd::Refused { message }),
        ),
        !(m is PunchRequest) && !(m is Error) ==> state.next(IoEvent::Read(outcome), now)
            == waits_on(state),
{
    client_laws::law_delivered_messages_are_heard(state.client.server, outcome, m);
}

/// A flow that waits for a peer that asks for it passes over every other message.
pub proof fn law_accepting_flow_waits_for_a_request(
    state: FlowModel,
    outcome: RecvOutcome,
    m: MessageModel,
    now: Duration,
)
    requires
        state.stage is Accepting,
        client_laws::delivers(state.client.server, outcome, m),
        !(m is PunchRequest),
    ensures
        state.next(IoEvent::Read(outcome), now) == waits_on(state),
{
    client_laws::law_delivered_messages_are_heard(state.client.server, outcome, m);
}

/// Whether a step begins a hole punch at the peer `peer_id` at `peer_addr`: the
/// flow sends the first punch packet there, and is then where a session with the
/// settings of its client is after its beginning.
pub open spec fn begins_punch(
    client: ClientModel,
    next: FlowModel,
    action: FlowActionModel,
    peer_id: Seq<char>,
    peer_addr: SocketAddr,
    now: Duration,
) -> bool {
    &&& next.client == client
    &&& next.stage == (FlowStage::Punching {
        peer_id,
        session: hole_punch::beginning(peer_addr, client.config).next(IoEvent::Done, now).0,
    })
    &&& action == (FlowActionModel::Send { to: peer_addr, bytes: seq![5u8, 0, 0, 0] })
}

/// Settings with which a hole punch begins with a packet to the peer.
pub open spec fn begins_with_peer(config: PunchConfig) -> bool {
    config.attempts > 0 && !config.port_prediction && config.response_timeout@ > 0
}

proof fn lemma_begins_punch(
    state: FlowModel,
    peer_id: Seq<char>,
    peer_addr: SocketAddr,
    now: Duration,
)
    requires
        begins_with_peer(state.client.config),
    ensures
        begins_punch(
            state.client,
            state.punch(peer_id, peer_addr, now).0,
            state.punch(peer_id, peer_addr, now).1,
            peer_id,
            peer_addr,
            now,
        ),
        state.punch(peer_id, peer_addr, now).0.target == state.target,
{
    let config = state.client.config;
    hole_punch_laws::law_punch_packet(seq![]);
    assert(hole_punch::schedule(peer_addr, config) =~= hole_punch::attempts(config));
    assert(hole_punch::attempts(config)[0] is Attempt);
}

/// A flow that is told where its target is punches there, under the name that it
/// asked for.
pub proof fn law_answered_flow_punches(
    state: FlowModel,
    target: Seq<char>,
    outcome: RecvOutcome,
    peer_addr: SocketAddr,
    peer_id: Seq<char>,
    now: Duration,
)
    requires
        state.stage == (FlowStage::Connecting { target }),
        begins_with_peer(state.client.config),
        client_laws::delivers(
            state.client.server,
            outcome,
            MessageModel::ConnectResponse { peer_addr, peer_id },
        ),
    ensures
        begins_punch(
            state.client,
            state.next(IoEvent::Read(outcome), now).0,
            state.next(IoEvent::Read(outcome), now).1,
            target,
            peer_addr,
            now,
        ),
        state.next(IoEvent::Read(outcome), now).0.target == state.target,
{
    client_laws::law_delivered_messages_are_heard(
        state.client.server,
        outcome,
        MessageModel::ConnectResponse { peer_addr, peer_id },
    );
    lemma_begins_punch(state, target, peer_addr, now);
}

/// A flow that waits for a peer that asks for it punches at the one that asks.
pub proof fn law_asked_flow_punches(
    state: FlowModel,
    outcome: RecvOutcome,
    id: Seq<char>,
    addr: SocketAddr,
    now: Duration,
)
    requires
        state.stage is Accepting,
        begins_with_peer(state.client.config),
        client_laws::delivers(
            state.client.server,
            outcome,
            MessageModel::PunchRequest { from_peer_id: id, from_addr: addr },
        ),
    ensures
        begins_punch(
            state.client,
            state.next(IoEvent::Read(outcome), now).0,
            state.next(IoEvent::Read(outcome), now).1,
            id,
            addr,
            now,
        ),
        state.next(IoEvent::Read(outcome), now).0.target == state.target,
{
    client_laws::law_delivered_messages_are_heard(
        state.client.server,
        outcome,
        MessageModel::PunchRequest { from_peer_id: id, from_addr: addr },
    );
    lemma_begins_punch(state, id, addr, now);
}

/// What a flow does once it is registered: with a target it asks the server for
/// it; without one it punches at the earliest peer that asked for it, or waits
/// for one. It keeps the address at which the server saw it.
pub proof fn law_registered_flow(
    state: FlowModel,
    outcome: RecvOutcome,
    public_addr: SocketAddr,
    now: Duration,
)
    requires
        state.stage is Registering,
        begins_with_peer(state.client.config),
        client_laws::delivers(
            state.client.server,
            outcome,
            MessageModel::RegisterAck { public_addr },
        ),
    ensures
        ({
            let (next, action) = state.next(IoEvent::Read(outcome), now);
            let seen = ClientModel { public_addr, ..state.client };
            &&& next.target == state.target
            &&& match state.target {
                Some(target) => {
                    &&& next.client == seen
                    &&& next.stage == (FlowStage::Connecting { target })
                    &&& action == (FlowActionModel::Send {
                        to: state.client.server,
                        bytes: (MessageModel::ConnectRequest {
                            target_peer_id: target,
                            requester_peer_id: state.client.peer_id,
                        }).wire(),
                    })
                },
                None => if state.client.pending.len() == 0 {
                    &&& next.client == seen
                    &&& next.stage is Accepting
                    &&& action == (FlowActionModel::Receive { nanos: state.client.recv_timeout@ })
                } else {
                    begins_punch(
                        ClientModel { pending: state.client.pending.skip(1), ..seen },
                        next,
                        action,
                        state.client.pending[0].0,
                        state.client.pending[0].1,
                        now,
                    )
                },
            }
        }),
{
    client_laws::law_delivered_messages_are_heard(
        state.client.server,
        outcome,
        MessageModel::RegisterAck { public_addr },
    );
    let seen = ClientModel { public_addr, ..state.client };
    if state.client.pending.len() > 0 {
        lemma_begins_punch(
            state.with_client(ClientModel { pending: state.client.pending.skip(1), ..seen }),
            state.client.pending[0].0,
            state.client.pending[0].1,
            now,
        );
    }
}

/// A flow that punches does what its session does, step by step, and ends when
/// the session ends: with the peer at the address where the session reached it,
/// or with the session's error.
pub proof fn law_punching_flow_follows_its_session(
    state: FlowModel,
    event: IoEvent,
    now: Duration,
)
    requires
        state.stage is Punching,
    ensures
        ({
            let peer_id = state.stage->peer_id;
            let (session, asked) = state.stage->session.next(event, now);
            let (next, action) = state.next(event, now);
            &&& next.client == state.client
            &&& next.target == state.target
            &&& asked is Finish ==> next.stage is Finished
            &&& !(asked is Finish) ==> next.stage == (FlowStage::Punching { peer_id, session })
            &&& asked matches ActionModel::Send { to, bytes } ==> action == (
            FlowActionModel::Send { to, bytes })
            &&& asked matches ActionModel::Sleep { nanos } ==> action == (
            FlowActionModel::Sleep { nanos })
            &&& asked matches ActionModel::Receive { nanos } ==> action == (
            FlowActionModel::Receive { nanos })
            &&& asked matches ActionModel::Finish(Ok(peer_addr)) ==> action
                == FlowActionModel::Finish(FlowEnd::Reached { peer_id, peer_addr })
            &&& asked matches ActionModel::Finish(Err(error)) ==> action
                == FlowActionModel::Finish(
                match error {
                    HolePunchError::Server(message) => FlowEnd::Refused { message: message@ },
                    _ => FlowEnd::Failed(error),
                },
            )
        }),
{
}

/// Whether one of the first `k` reads of a run delivered a message by which the
/// server told where `peer_id` is: for a flow with a target the answer to its
/// request, for one without the request of that peer.
pub open spec fn told(
    server: SocketAddr,
    target: Option<Seq<char>>,
    events: Seq<(IoEvent, Duration)>,
    k: int,
    peer_id: Seq<char>,
    peer_addr: SocketAddr,
) -> bool {
    exists|j: int, name: Seq<char>|
        0 <= j < k && #[trigger] tells(server, target, events[j].0, name, peer_id, peer_addr)
}

/// Whether an event is such a read; `name` is what the answer calls the peer.
pub open spec fn tells(
    server: SocketAddr,
    target: Option<Seq<char>>,
    event: IoEvent,
    name: Seq<char>,
    peer_id: Seq<char>,
    peer_addr: SocketAddr,
) -> bool {
    &&& event matches IoEvent::Read(outcome)
    &&& match target {
        Some(asked) => peer_id == asked && client_laws::delivers(
            server,
            outcome,
            MessageModel::ConnectResponse { peer_addr, peer_id: name },
        ),
        None => client_laws::delivers(
            server,
            outcome,
            MessageModel::PunchRequest { from_peer_id: peer_id, from_addr: peer_addr },
        ),
    }
}

/// Whether one of the first `k` events is a packet from `winner`, and it is a
/// punch packet or `winner` is the address that is punched at.
pub open spec fn answered(
    events: Seq<(IoEvent, Duration)>,
    k: int,
    peer_addr: SocketAddr,
    winner: SocketAddr,
) -> bool {
    exists|j: int| 0 <= j < k && #[trigger] is_answer(events[j].0, peer_addr, winner)
}

/// Whether an event is such a packet.
pub open spec fn is_answer(event: IoEvent, peer_addr: SocketAddr, winner: SocketAddr) -> bool {
    event matches IoEvent::Read(RecvOutcome::Received { data, from }) && from == winner && (winner
        == peer_addr || hole_punch_laws::is_punch_packet(data@))
}

/// Whether a run is that of a flow from its beginning on.
pub open spec fn walks(
    states: Seq<FlowModel>,
    events: Seq<(IoEvent, Duration)>,
    actions: Seq<FlowActionModel>,
) -> bool {
    &&& runs(states, events, actions)
    &&& states[0].stage is Registering
    &&& states[0].client.pending.len() == 0
}

proof fn lemma_told_earlier(
    server: SocketAddr,
    target: Option<Seq<char>>,
    events: Seq<(IoEvent, Duration)>,
    k: int,
    peer_id: Seq<char>,
    peer_addr: SocketAddr,
)
    requires
        told(server, target, events, k, peer_id, peer_addr),
    ensures
        told(server, target, events, k + 1, peer_id, peer_addr),
{
    let (j, name) = choose|j: int, name: Seq<char>|
        0 <= j < k && #[trigger] tells(server, target, events[j].0, name, peer_id, peer_addr);
    assert(tells(server, target, events[j].0, name, peer_id, peer_addr));
}

/// Where the run of a flow stands after `k` events.
proof fn lemma_walk(
    states: Seq<FlowModel>,
    events: Seq<(IoEvent, Duration)>,
    actions: Seq<FlowActionModel>,
    k: int,
)
    requires
        walks(states, events, actions),
        0 <= k <= events.len(),
    ensures
        states[k].client.server == states[0].client.server,
        states[k].client.peer_id == states[0].client.peer_id,
        states[k].client.config == states[0].client.config,
        states[k].client.recv_timeout == states[0].client.recv_timeout,
        states[k].target == states[0].target,
        on_course(states[k]),
        states[0].target is None ==> forall|i: int|
            #![trigger states[k].client.pending[i]]
            0 <= i < states[k].client.pending.len() ==> told(
                states[0].client.server,
                None,
                events,
                k,
                states[k].client.pending[i].0,
                states[k].client.pending[i].1,
            ),
        states[k].stage is Connecting ==> states[0].target is Some,
        states[k].stage is Accepting ==> states[0].target is None,
        states[k].stage matches FlowStage::Punching { peer_id, session } ==> {
            &&& told(states[0].client.server, states[0].target, events, k, peer_id, session.peer)
            &&& session.config == states[0].client.config
            &&& session.stage matches Stage::Draining { winner } ==> answered(
                events,
                k,
                session.peer,
                winner,
            )
        },
    decreases k,
{
    if k > 0 {
        let n = k - 1;
        lemma_walk(states, events, actions, n);
        lemma_stays_on_course(states, events, actions, k);
        let before = states[n];
        let (event, now) = events[n];
        let server = before.client.server;
        assert((states[k], actions[n]) == before.next(event, now));
        if before.target is None {
            assert forall|i: int|
                #![trigger before.client.pending[i]]
                0 <= i < before.client.pending.len() implies told(
                server,
                None,
                events,
                k,
                before.client.pending[i].0,
                before.client.pending[i].1,
            ) by {
                lemma_told_earlier(
                    server,
                    None,
                    events,
                    n,
                    before.client.pending[i].0,
                    before.client.pending[i].1,
                );
            }
        }
        match before.stage {
            FlowStage::Punching { peer_id, session } => {
                lemma_told_earlier(server, before.target, events, n, peer_id, session.peer);
                hole_punch_laws::law_session_keeps_its_peer(session, event, now);
                if let IoEvent::Read(RecvOutcome::Received { data, .. }) = event {
                    hole_punch_laws::law_punch_packet(data@);
                }
                if let FlowStage::Punching { session: after, .. } = states[k].stage {
                    if let Stage::Draining { winner } = after.stage {
                        if session.stage is Draining {
                            let j = choose|j: int|
                                0 <= j < n && #[trigger] is_answer(
                                    events[j].0,
                                    session.peer,
                                    winner,
                                );
                            assert(is_answer(events[j].0, session.peer, winner));
                        } else {
                            assert(is_answer(events[n].0, session.peer, winner));
                        }
                    }
                }
            },
            _ => {
                if let IoEvent::Read(outcome) = event {
                    if let Heard::Message(m) = client::heard(server, outcome) {
                        client_laws::law_delivered_messages_are_heard(server, outcome, m);
                        match m {
                            MessageModel::ConnectResponse { peer_addr, peer_id } => {
                                if let FlowStage::Connecting { target } = before.stage {
                                    assert(tells(
                                        server,
                                        before.target,
                                        events[n].0,
                                        peer_id,
                                        target,
                                        peer_addr,
                                    ));
                                }
                            },
                            MessageModel::PunchRequest { from_peer_id, from_addr } => {
                                if before.target is None {
                                    assert(tells(
                                        server,
                                        None,
                                        events[n].0,
                                        from_peer_id,
                                        from_peer_id,
                                        from_addr,
                                    ));
                                }
                            },
                            _ => {},
                        }
                    }
                }
            },
        }
    }
}

/// A flow punches only where the server told it to: with a target, at an address
/// that came in an answer to its request, and as that target; without one, at a
/// peer that asked for it, and where that peer asked from.
pub proof fn law_punches_where_it_was_told(
    states: Seq<FlowModel>,
    events: Seq<(IoEvent, Duration)>,
    actions: Seq<FlowActionModel>,
    k: int,
)
    requires
        walks(states, events, actions),
        0 <= k <= events.len(),
        states[k].stage is Punching,
    ensures
        told(
            states[0].client.server,
            states[0].target,
            events,
            k,
            states[k].stage->peer_id,
            states[k].stage->session.peer,
        ),
        states[k].stage->session.config == states[0].client.config,
{
    lemma_walk(states, events, actions, k);
}

/// A flow reaches a peer only where a packet came from: from the address that the
/// server told, or a punch packet from elsewhere.
pub proof fn law_reached_means_answered(
    states: Seq<FlowModel>,
    events: Seq<(IoEvent, Duration)>,
    actions: Seq<FlowActionModel>,
    k: int,
    peer_id: Seq<char>,
    peer_addr: SocketAddr,
)
    requires
        walks(states, events, actions),
        0 <= k < events.len(),
        actions[k] == FlowActionModel::Finish(FlowEnd::Reached { peer_id, peer_addr }),
    ensures
        exists|address: SocketAddr| #[trigger]
            told(states[0].client.server, states[0].target, events, k, peer_id, address) && answered(
                events,
                k,
                address,
                peer_addr,
            ),
{
    lemma_walk(states, events, actions, k);
    assert((states[k + 1], actions[k]) == states[k].next(events[k].0, events[k].1));
    assert(told(
        states[0].client.server,
        states[0].target,
        events,
        k,
        peer_id,
        states[k].stage->session.peer,
    ));
}

/// Nothing that happens to a flow changes its server, its identifier, its
/// settings or its target.
pub proof fn law_flow_keeps_its_course(
    states: Seq<FlowModel>,
    events: Seq<(IoEvent, Duration)>,
    actions: Seq<FlowActionModel>,
    k: int,
)
    requires
        walks(states, events, actions),
        0 <= k <= events.len(),
    ensures
        states[k].client.server == states[0].client.server,
        states[k].client.peer_id == states[0].client.peer_id,
        states[k].client.config == states[0].client.config,
        states[k].client.recv_timeout == states[0].client.recv_timeout,
        states[k].target == states[0].target,
{
    lemma_walk(states, events, actions, k);
}

/// A flow begins with a new client of its server under its identifier: nobody has
/// asked for it, its address is unknown, its settings are the usual ones, and it
/// waits thirty seconds for an answer.
pub proof fn law_beginning_of_a_flow(
    state: FlowModel,
    server_addr: SocketAddr,
    my_peer_id: Seq<char>,
    target: Option<Seq<char>>,
)
    requires
        flow::registering(state, server_addr, my_peer_id, target),
    ensures
        state.client.server == server_addr,
        state.client.peer_id == my_peer_id,
        state.client.public_addr == (SocketAddr::V4 { octets: [0, 0, 0, 0], port: 0 }),
        state.client.pending.len() == 0,
        state.client.config.attempts == 30,
        state.client.config.interval@ == 50_000_000,
        state.client.config.response_timeout@ == 5_000_000_000,
        !state.client.config.port_prediction,
        state.client.recv_timeout@ == 30_000_000_000,
        state.target == target,
        state.stage is Registering,
{
}

/// An error is passed on as it is, and an error message of the server as its
/// text.
pub proof fn law_error_ends(error: HolePunchError, message: String)
    ensures
        flow::error_end(HolePunchError::Server(message)) == (FlowEnd::Refused {
            message: message@,
        }),
        !(error is Server) ==> flow::error_end(error) == FlowEnd::Failed(error),
{
}

/// The request whose answer a flow waits for can be encoded, as the flow says.
pub proof fn law_request_fits(state: FlowModel, target: Seq<char>)
    requires
        state.request_fits(),
    ensures
        state.stage is Registering ==> (MessageModel::Register {
            peer_id: state.client.peer_id,
        }).lengths_fit(),
        state.stage == (FlowStage::Connecting { target }) ==> (MessageModel::ConnectRequest {
            target_peer_id: target,
            requester_peer_id: state.client.peer_id,
        }).lengths_fit(),
{
}

} // verus!
