//! What holds of the server at work over several events.
use vstd::prelude::*;

use crate::addr::SocketAddr;
use crate::duration::Duration;
use crate::event::{IoEvent, RecvOutcome};
use crate::protocol;
use crate::protocol::MessageModel;
use crate::server;
use crate::server::Replies;
use crate::service;
use crate::service::{Packets, ServiceActionModel, ServiceModel};

verus! {

/// Whether a service goes through `states` and asks for `actions` as it takes
/// in `events`, each with its time.
pub open spec fn runs(
    states: Seq<ServiceModel>,
    events: Seq<(IoEvent, Duration)>,
    actions: Seq<ServiceActionModel>,
) -> bool {
    &&& states.len() == events.len() + 1
    &&& actions.len() == events.len()
    &&& forall|i: int|
        #![trigger actions[i]]
        0 <= i < events.len() ==> service::advances(
            states[i],
            events[i].0,
            events[i].1,
            states[i + 1],
            actions[i],
        )
}

/// As long as packets can be sent, a service sends all that it has to send, in
/// order, and then reads on. This changes nothing that it knows.
pub proof fn law_unsent_packets_go_out_in_order(
    states: Seq<ServiceModel>,
    events: Seq<(IoEvent, Duration)>,
    actions: Seq<ServiceActionModel>,
    n: int,
)
    requires
        runs(states, events, actions),
        0 <= n <= events.len(),
        forall|i: int| 0 <= i < events.len() ==> (#[trigger] events[i]).0 is Done,
    ensures
        states[n].peers == states[0].peers,
        states[n].unsent == states[0].unsent.skip(
            if n < states[0].unsent.len() {
                n
            } else {
                states[0].unsent.len() as int
            },
        ),
        forall|i: int|
            0 <= i < n ==> #[trigger] actions[i] == if i < states[0].unsent.len() {
                ServiceActionModel::Send {
                    to: states[0].unsent[i].0,
                    bytes: states[0].unsent[i].1,
                }
            } else {
                ServiceActionModel::Receive
            },
    decreases n,
{
    let queue = states[0].unsent;
    if n == 0 {
        assert(queue.skip(0) =~= queue);
    } else {
        let k = n - 1;
        law_unsent_packets_go_out_in_order(states, events, actions, k);
        assert(events[k].0 is Done);
        assert(service::advances(states[k], events[k].0, events[k].1, states[n], actions[k]));
        if k < queue.len() {
            assert(queue.skip(k)[0] == queue[k]);
            assert(queue.skip(k).skip(1) =~= queue.skip(n));
        }
    }
}

/// Whether a service that is to send the bytes of `replies` asks for the first of
/// them and has the others left, in their order; or reads on if there are none.
pub open spec fn goes_on_with(
    replies: Replies,
    unsent: Packets,
    action: ServiceActionModel,
) -> bool {
    if replies.len() == 0 {
        action == ServiceActionModel::Receive && unsent.len() == 0
    } else {
        &&& action == (ServiceActionModel::Send {
            to: replies[0].0,
            bytes: replies[0].1.wire(),
        })
        &&& unsent.len() == replies.len() - 1
        &&& forall|i: int|
            0 <= i < unsent.len() ==> #[trigger] unsent[i] == (
                replies[i + 1].0,
                replies[i + 1].1.wire(),
            )
    }
}

/// A service that has nothing to send and reads a message answers it: the first
/// of the answers is the next packet, the others wait, and without an answer it
/// reads on. What the server knows changes as the message asks for.
pub proof fn law_message_is_answered(
    before: ServiceModel,
    data: Vec<u8>,
    from: SocketAddr,
    m: MessageModel,
    now: Duration,
    after: ServiceModel,
    action: ServiceActionModel,
)
    requires
        before.unsent.len() == 0,
        protocol::decoded(data@) == Some(m),
        service::advances(
            before,
            IoEvent::Read(RecvOutcome::Received { data, from }),
            now,
            after,
            action,
        ),
    ensures
        server::updates(before.peers, from, m, now, after.peers),
        exists|replies: Replies| #[trigger]
            server::answers(before.peers, from, m, replies) && server::sendable(replies)
                && goes_on_with(replies, after.unsent, action),
{
    let queue = choose|queue: Packets| #[trigger]
        service::queues(before.peers, from, m, before.unsent, queue) && service::sends(
            queue,
            after.unsent,
            action,
        );
    let replies = choose|replies: Replies| #[trigger]
        server::answers(before.peers, from, m, replies) && server::sendable(replies) && queue
            == before.unsent + server::packets(replies);
    assert(queue =~= server::packets(replies));
    assert(goes_on_with(replies, after.unsent, action));
}

/// Whatever is read while packets are unsent, the first of them goes out next and
/// the others stay in front of what is answered.
pub proof fn law_unsent_packets_come_first(
    before: ServiceModel,
    outcome: RecvOutcome,
    now: Duration,
    after: ServiceModel,
    action: ServiceActionModel,
)
    requires
        before.unsent.len() > 0,
        !(outcome is Failed),
        service::advances(before, IoEvent::Read(outcome), now, after, action),
    ensures
        action == (ServiceActionModel::Send {
            to: before.unsent[0].0,
            bytes: before.unsent[0].1,
        }),
        before.unsent.skip(1).is_prefix_of(after.unsent),
{
    if let RecvOutcome::Received { data, from } = outcome {
        if let Some(m) = protocol::decoded(data@) {
            let queue = choose|queue: Packets| #[trigger]
                service::queues(before.peers, from, m, before.unsent, queue) && service::sends(
                    queue,
                    after.unsent,
                    action,
                );
            let replies = choose|replies: Replies| #[trigger]
                server::answers(before.peers, from, m, replies) && server::sendable(replies)
                    && queue == before.unsent + server::packets(replies);
            assert(queue.skip(1) =~= before.unsent.skip(1) + server::packets(replies));
        }
    }
    assert(before.unsent.skip(1) =~= after.unsent.take(before.unsent.len() - 1));
}

/// A read in which nothing comes changes nothing, and the service reads on.
pub proof fn law_silence_changes_nothing(
    before: ServiceModel,
    now: Duration,
    after: ServiceModel,
    action: ServiceActionModel,
)
    requires
        before.unsent.len() == 0,
        service::advances(before, IoEvent::Read(RecvOutcome::TimedOut), now, after, action),
    ensures
        after == before,
        action == ServiceActionModel::Receive,
{
}

/// A packet that cannot be sent ends the sending: what was behind it is given
/// up, and the service reads on with all that it knows.
pub proof fn law_failed_send_gives_up_the_rest(
    before: ServiceModel,
    error: std::io::Error,
    now: Duration,
    after: ServiceModel,
    action: ServiceActionModel,
)
    requires
        service::advances(before, IoEvent::SendFailed(error), now, after, action),
    ensures
        after == (ServiceModel { unsent: Packets::empty(), ..before }),
        action == ServiceActionModel::Receive,
{
}

/// Whether an event is a datagram that carries no message.
pub open spec fn is_garbage(event: IoEvent) -> bool {
    event matches IoEvent::Read(RecvOutcome::Received { data, .. }) && protocol::decoded(data@)
        is None
}

/// The events but for the datagrams that carry no message.
pub open spec fn sensible_events(events: Seq<(IoEvent, Duration)>) -> Seq<(IoEvent, Duration)>
    decreases events.len(),
{
    if events.len() == 0 {
        seq![]
    } else if is_garbage(events.last().0) {
        sensible_events(events.drop_last())
    } else {
        sensible_events(events.drop_last()).push(events.last())
    }
}

/// The actions upon those events.
pub open spec fn sensible_actions(
    events: Seq<(IoEvent, Duration)>,
    actions: Seq<ServiceActionModel>,
) -> Seq<ServiceActionModel>
    decreases events.len(),
{
    if events.len() == 0 {
        seq![]
    } else if is_garbage(events.last().0) {
        sensible_actions(events.drop_last(), actions.drop_last())
    } else {
        sensible_actions(events.drop_last(), actions.drop_last()).push(actions.last())
    }
}

/// The state before those events, and the states after each of them.
pub open spec fn sensible_states(
    events: Seq<(IoEvent, Duration)>,
    states: Seq<ServiceModel>,
) -> Seq<ServiceModel>
    decreases events.len(),
{
    if events.len() == 0 {
        seq![states[0]]
    } else if is_garbage(events.last().0) {
        sensible_states(events.drop_last(), states.drop_last())
    } else {
        sensible_states(events.drop_last(), states.drop_last()).push(states.last())
    }
}

/// The packets among some actions, in their order.
pub open spec fn packets_sent(actions: Seq<ServiceActionModel>) -> Packets
    decreases actions.len(),
{
    if actions.len() == 0 {
        seq![]
    } else {
        match actions.last() {
            ServiceActionModel::Send { to, bytes } => packets_sent(actions.drop_last()).push(
                (to, bytes),
            ),
            _ => packets_sent(actions.drop_last()),
        }
    }
}

/// Without the datagrams that carry no message a run is still a run: the service
/// sends the same packets, in the same order, and ends in the same state. It
/// reads only when it has nothing to send, as it asks for.
pub proof fn law_garbage_makes_no_difference(
    states: Seq<ServiceModel>,
    events: Seq<(IoEvent, Duration)>,
    actions: Seq<ServiceActionModel>,
)
    requires
        runs(states, events, actions),
        forall|i: int|
            #![trigger events[i]]
            0 <= i < events.len() && events[i].0 is Read ==> states[i].unsent.len() == 0,
    ensures
        runs(
            sensible_states(events, states),
            sensible_events(events),
            sensible_actions(events, actions),
        ),
        sensible_states(events, states)[0] == states[0],
        sensible_states(events, states).last() == states.last(),
        packets_sent(sensible_actions(events, actions)) == packets_sent(actions),
        forall|i: int|
            0 <= i < sensible_events(events).len() ==> !is_garbage(
                (#[trigger] sensible_events(events)[i]).0,
            ),
    decreases events.len(),
{
    if events.len() > 0 {
        let n = events.len() - 1;
        let earlier = events.drop_last();
        assert(runs(states.drop_last(), earlier, actions.drop_last())) by {
            assert forall|i: int| 0 <= i < n implies service::advances(
                states.drop_last()[i],
                earlier[i].0,
                earlier[i].1,
                states.drop_last()[i + 1],
                #[trigger] actions.drop_last()[i],
            ) by {
                assert(service::advances(
                    states[i],
                    events[i].0,
                    events[i].1,
                    states[i + 1],
                    actions[i],
                ));
            }
        }
        assert forall|i: int|
            #![trigger earlier[i]]
            0 <= i < n && earlier[i].0 is Read implies states.drop_last()[i].unsent.len() == 0 by {
            assert(events[i].0 is Read);
        }
        law_garbage_makes_no_difference(states.drop_last(), earlier, actions.drop_last());
        let (event, now) = events[n];
        assert(service::advances(states[n], event, now, states[n + 1], actions[n]));
        let kept = sensible_actions(earlier, actions.drop_last());
        assert(kept.push(actions[n]).drop_last() =~= kept);
        if is_garbage(event) {
            law_garbage_leaves_no_trace(
                states[n],
                event->Read_0->data,
                event->Read_0->from,
                now,
                states[n + 1],
                actions[n],
            );
        }
    }
}

/// A datagram that carries no message leaves no trace.
pub proof fn law_garbage_leaves_no_trace(
    before: ServiceModel,
    data: Vec<u8>,
    from: SocketAddr,
    now: Duration,
    after: ServiceModel,
    action: ServiceActionModel,
)
    requires
        before.unsent.len() == 0,
        protocol::decoded(data@) is None,
        service::advances(
            before,
            IoEvent::Read(RecvOutcome::Received { data, from }),
            now,
            after,
            action,
        ),
    ensures
        after == before,
        action == ServiceActionModel::Receive,
{
}

/// Nothing stops a service but a socket that cannot be read.
pub proof fn law_only_a_broken_socket_stops(
    before: ServiceModel,
    event: IoEvent,
    now: Duration,
    after: ServiceModel,
    action: ServiceActionModel,
)
    requires
        service::advances(before, event, now, after, action),
    ensures
        action is Stop <==> (event matches IoEvent::Read(outcome) && outcome is Failed),
        action matches ServiceActionModel::Stop(error) ==> event == IoEvent::Read(
            RecvOutcome::Failed(error),
        ) && after == before,
{
}

} // verus!
