//! What holds of a hole punch from its beginning to its end.
use vstd::prelude::*;

use crate::addr::SocketAddr;
use crate::duration::Duration;
use crate::error::HolePunchError;
use crate::event::{IoEvent, RecvOutcome};
use crate::hole_punch;
use crate::hole_punch::{ActionModel, PunchConfig, SessionModel, Stage, Step};
use crate::protocol;
use crate::protocol::MessageModel;
use crate::wire;

verus! {

/// Whether a session goes through `states` and asks for `actions` as it takes
/// in `events`, each with its time.
pub open spec fn runs(
    states: Seq<SessionModel>,
    events: Seq<(IoEvent, Duration)>,
    actions: Seq<ActionModel>,
) -> bool {
    &&& states.len() == events.len() + 1
    &&& actions.len() == events.len()
    &&& forall|i: int|
        #![trigger actions[i]]
        0 <= i < events.len() ==> (states[i + 1], actions[i]) == states[i].next(
            events[i].0,
            events[i].1,
        )
}

/// Whether such a run is that of a session at `peer` from its beginning on.
pub open spec fn punches(
    peer: SocketAddr,
    config: PunchConfig,
    states: Seq<SessionModel>,
    events: Seq<(IoEvent, Duration)>,
    actions: Seq<ActionModel>,
) -> bool {
    runs(states, events, actions) && states[0] == hole_punch::beginning(peer, config)
}

/// The moment at which the timeout of a run is over.
pub open spec fn deadline(config: PunchConfig, events: Seq<(IoEvent, Duration)>) -> nat {
    events[0].1@ + config.response_timeout@
}

/// Whether some bytes begin with those of a punch packet.
pub open spec fn is_punch_packet(data: Seq<u8>) -> bool {
    data.len() >= 4 && data[0] == 5 && data[1] == 0 && data[2] == 0 && data[3] == 0
}

/// Whether `event` is a packet that shows that the peer is reached: one from the
/// peer's address, or a punch packet.
pub open spec fn opens(peer: SocketAddr, event: IoEvent) -> bool {
    event matches IoEvent::Read(RecvOutcome::Received { data, from }) && (from == peer
        || is_punch_packet(data@))
}

/// A punch packet is four bytes, and bytes that begin with them are read as one.
pub proof fn law_punch_packet(data: Seq<u8>)
    ensures
        MessageModel::PunchAck.wire() == seq![5u8, 0, 0, 0],
        protocol::decoded(data) == Some(MessageModel::PunchAck) <==> is_punch_packet(data),
{
    reveal_with_fuel(wire::le_bytes, 5);
    assert(MessageModel::PunchAck.wire() =~= seq![5u8, 0, 0, 0]);
    protocol::law_decoded_means_encoded(data, MessageModel::PunchAck);
    let bytes = seq![5u8, 0, 0, 0];
    if is_punch_packet(data) {
        assert(bytes =~= data.subrange(0, 4));
    }
    if bytes.is_prefix_of(data) {
        assert(bytes[0] == data[0] && bytes[1] == data[1] && bytes[2] == data[2] && bytes[3]
            == data[3]);
    }
}

/// Whether none of the first `k` events brought such a packet to a session that
/// listened.
pub open spec fn unanswered(
    peer: SocketAddr,
    states: Seq<SessionModel>,
    events: Seq<(IoEvent, Duration)>,
    k: int,
) -> bool {
    forall|i: int|
        #![trigger events[i]]
        0 <= i < k && states[i].stage is Listening ==> !opens(peer, events[i].0)
}

/// Whether the `j`th event brought a session that listened the first such
/// packet, and it came from `winner`.
pub open spec fn first_answer(
    peer: SocketAddr,
    states: Seq<SessionModel>,
    events: Seq<(IoEvent, Duration)>,
    j: int,
    winner: SocketAddr,
) -> bool {
    &&& states[j].stage is Listening
    &&& opens(peer, events[j].0)
    &&& events[j].0->Read_0->from == winner
    &&& unanswered(peer, states, events, j)
}

/// Whether such a packet from `winner` is among the first `k` events.
pub open spec fn heard(
    peer: SocketAddr,
    states: Seq<SessionModel>,
    events: Seq<(IoEvent, Duration)>,
    k: int,
    winner: SocketAddr,
) -> bool {
    exists|j: int| 0 <= j < k && #[trigger] first_answer(peer, states, events, j, winner)
}

/// Where a run stands after `k` events.
proof fn lemma_run(
    peer: SocketAddr,
    config: PunchConfig,
    states: Seq<SessionModel>,
    events: Seq<(IoEvent, Duration)>,
    actions: Seq<ActionModel>,
    k: int,
)
    requires
        punches(peer, config, states, events, actions),
        0 <= k <= events.len(),
    ensures
        states[k].peer == peer,
        states[k].config == config,
        match states[k].stage {
            Stage::Ready => k == 0,
            Stage::Sending { start, todo, last_was_attempt } => {
                &&& 1 <= k <= hole_punch::schedule(peer, config).len()
                &&& start == events[0].1
                &&& todo == hole_punch::schedule(peer, config).skip(k)
                &&& last_was_attempt == (hole_punch::schedule(peer, config)[k - 1] is Attempt)
                &&& unanswered(peer, states, events, k)
            },
            Stage::Listening { start } => {
                &&& 1 <= k
                &&& start == events[0].1
                &&& unanswered(peer, states, events, k)
            },
            Stage::Draining { winner } => heard(peer, states, events, k, winner),
            Stage::Finished => 1 <= k,
        },
    decreases k,
{
    let whole = hole_punch::schedule(peer, config);
    if k > 0 {
        lemma_run(peer, config, states, events, actions, k - 1);
        let before = states[k - 1];
        let (event, now) = events[k - 1];
        assert((states[k], actions[k - 1]) == before.next(event, now));
        if let IoEvent::Read(RecvOutcome::Received { data, .. }) = event {
            law_punch_packet(data@);
        }
        if k - 1 < whole.len() {
            assert(whole.skip(k - 1).skip(1) =~= whole.skip(k));
            assert(whole.skip(k - 1)[0] == whole[k - 1]);
        }
        if before.stage is Ready {
            assert(whole.skip(0) =~= whole);
        }
        match states[k].stage {
            Stage::Draining { winner } => {
                if before.stage is Draining {
                    let j = choose|j: int|
                        0 <= j < k - 1 && #[trigger] first_answer(peer, states, events, j, winner);
                    assert(first_answer(peer, states, events, j, winner));
                } else {
                    assert(first_answer(peer, states, events, k - 1, winner));
                }
            },
            _ => {},
        }
    }
}

/// The number of packets among some steps.
pub open spec fn packets(steps: Seq<Step>) -> nat
    decreases steps.len(),
{
    if steps.len() == 0 {
        0
    } else {
        packets(steps.drop_last()) + if steps.last() is Pause {
            0nat
        } else {
            1nat
        }
    }
}

/// The number of packets among some actions.
pub open spec fn packets_sent(actions: Seq<ActionModel>) -> nat
    decreases actions.len(),
{
    if actions.len() == 0 {
        0
    } else {
        packets_sent(actions.drop_last()) + if actions.last() is Send {
            1nat
        } else {
            0nat
        }
    }
}

/// The number of packets that a session has to send: as many as there are
/// attempts, and one more for each predicted port.
pub open spec fn packets_owed(config: PunchConfig) -> int {
    config.attempts + if config.port_prediction {
        config.port_prediction_range as int
    } else {
        0
    }
}

proof fn lemma_packets_of_guesses(steps: Seq<Step>)
    requires
        forall|i: int| 0 <= i < steps.len() ==> (#[trigger] steps[i]) is Guess,
    ensures
        packets(steps) == steps.len(),
    decreases steps.len(),
{
    if steps.len() > 0 {
        lemma_packets_of_guesses(steps.drop_last());
    }
}

proof fn lemma_packets_with_attempts(guesses: Seq<Step>, rest: Seq<Step>)
    requires
        packets(guesses) == guesses.len(),
        forall|i: int|
            0 <= i < rest.len() ==> #[trigger] rest[i] == if i % 2 == 0 {
                Step::Attempt
            } else {
                Step::Pause
            },
    ensures
        packets(guesses + rest) == guesses.len() + (rest.len() + 1) / 2,
    decreases rest.len(),
{
    if rest.len() == 0 {
        assert(guesses + rest =~= guesses);
    } else {
        lemma_packets_with_attempts(guesses, rest.drop_last());
        assert((guesses + rest).drop_last() =~= guesses + rest.drop_last());
        assert((guesses + rest).last() == rest[rest.len() - 1]);
    }
}

proof fn lemma_packets_of_schedule(peer: SocketAddr, config: PunchConfig)
    ensures
        packets(hole_punch::schedule(peer, config)) == packets_owed(config),
{
    let guesses = hole_punch::guesses(peer, config);
    lemma_packets_of_guesses(guesses);
    lemma_packets_with_attempts(guesses, hole_punch::attempts(config));
}

proof fn lemma_packets_of_front(steps: Seq<Step>, k: int)
    requires
        0 <= k <= steps.len(),
    ensures
        packets(steps.take(k)) <= packets(steps),
        k - packets(steps.take(k)) <= steps.len() - packets(steps),
    decreases steps.len() - k,
{
    if k < steps.len() {
        assert(steps.take(k + 1).drop_last() =~= steps.take(k));
        lemma_packets_of_front(steps, k + 1);
    } else {
        assert(steps.take(k) =~= steps);
    }
}

/// How many packets a run has sent after `k` events.
proof fn lemma_packets_sent(
    peer: SocketAddr,
    config: PunchConfig,
    states: Seq<SessionModel>,
    events: Seq<(IoEvent, Duration)>,
    actions: Seq<ActionModel>,
    k: int,
)
    requires
        punches(peer, config, states, events, actions),
        0 <= k <= events.len(),
    ensures
        packets_sent(actions.take(k)) <= packets_owed(config),
        states[k].stage is Sending ==> packets_sent(actions.take(k)) == packets(
            hole_punch::schedule(peer, config).take(k),
        ),
    decreases k,
{
    let whole = hole_punch::schedule(peer, config);
    lemma_packets_of_schedule(peer, config);
    if k > 0 {
        lemma_packets_sent(peer, config, states, events, actions, k - 1);
        lemma_run(peer, config, states, events, actions, k - 1);
        lemma_run(peer, config, states, events, actions, k);
        assert((states[k], actions[k - 1]) == states[k - 1].next(
            events[k - 1].0,
            events[k - 1].1,
        ));
        assert(actions.take(k).drop_last() =~= actions.take(k - 1));
        assert(actions.take(k).last() == actions[k - 1]);
        if states[k].stage is Sending {
            assert(whole.take(k).drop_last() =~= whole.take(k - 1));
            if k == 1 {
                assert(packets(whole.take(0)) == 0);
                assert(packets_sent(actions.take(0)) == 0);
                assert(whole.skip(0) =~= whole);
            }
            assert(whole.skip(k - 1)[0] == whole[k - 1]);
            assert(whole.take(k).last() == whole[k - 1]);
            assert(actions[k - 1] is Send <==> !(whole[k - 1] is Pause));
            lemma_packets_of_front(whole, k);
        }
    }
}

proof fn lemma_packets_sent_grow(actions: Seq<ActionModel>, n: int, k: int)
    requires
        0 <= n <= k <= actions.len(),
    ensures
        packets_sent(actions.take(n)) <= packets_sent(actions.take(k)),
    decreases k - n,
{
    if n < k {
        assert(actions.take(k).drop_last() =~= actions.take(k - 1));
        lemma_packets_sent_grow(actions, n, k - 1);
    }
}

/// Whether the first `n` events of a run come before the timeout is over, and
/// none of them says that an attempt to send to the peer failed.
pub open spec fn undisturbed(
    peer: SocketAddr,
    config: PunchConfig,
    events: Seq<(IoEvent, Duration)>,
    n: int,
) -> bool {
    &&& forall|i: int| 0 <= i < n ==> (#[trigger] events[i]).1@ < deadline(config, events)
    &&& forall|i: int|
        0 < i < n && (#[trigger] events[i]).0 is SendFailed ==> !(hole_punch::schedule(
            peer,
            config,
        )[i - 1] is Attempt)
}

/// Before it listens, a session carries out its whole schedule, step by step,
/// as far as the timeout lets it and unless an attempt to send to the peer
/// fails. That a packet to a predicted port could not be sent makes no
/// difference.
pub proof fn law_schedule_is_carried_out(
    peer: SocketAddr,
    config: PunchConfig,
    states: Seq<SessionModel>,
    events: Seq<(IoEvent, Duration)>,
    actions: Seq<ActionModel>,
    n: int,
)
    requires
        punches(peer, config, states, events, actions),
        0 <= n <= events.len(),
        n <= hole_punch::schedule(peer, config).len(),
        undisturbed(peer, config, events, n),
    ensures
        forall|i: int|
            0 <= i < n ==> #[trigger] actions[i] == hole_punch::beginning(peer, config).action_for(
                hole_punch::schedule(peer, config)[i],
                hole_punch::beginning(peer, config).time_left(events[0].1, events[i].1),
            ),
        n > 0 ==> states[n].stage == (Stage::Sending {
            start: events[0].1,
            todo: hole_punch::schedule(peer, config).skip(n),
            last_was_attempt: hole_punch::schedule(peer, config)[n - 1] is Attempt,
        }),
    decreases n,
{
    let whole = hole_punch::schedule(peer, config);
    if n > 0 {
        law_schedule_is_carried_out(peer, config, states, events, actions, n - 1);
        lemma_run(peer, config, states, events, actions, n - 1);
        assert((states[n], actions[n - 1]) == states[n - 1].next(
            events[n - 1].0,
            events[n - 1].1,
        ));
        assert(events[0].1@ < deadline(config, events));
        assert(events[n - 1].1@ < deadline(config, events));
        if n == 1 {
            assert(whole.skip(0) =~= whole);
        }
        assert(whole.skip(n - 1).skip(1) =~= whole.skip(n));
        assert(whole.skip(n - 1)[0] == whole[n - 1]);
    }
}

/// A session that is not disturbed until its schedule is carried out sends as
/// many packets as there are attempts, and one more for each predicted port,
/// whatever follows.
pub proof fn law_number_of_packets(
    peer: SocketAddr,
    config: PunchConfig,
    states: Seq<SessionModel>,
    events: Seq<(IoEvent, Duration)>,
    actions: Seq<ActionModel>,
)
    requires
        punches(peer, config, states, events, actions),
        hole_punch::schedule(peer, config).len() <= events.len(),
        undisturbed(
            peer,
            config,
            events,
            hole_punch::schedule(peer, config).len() as int,
        ),
    ensures
        packets_sent(actions) == packets_owed(config),
{
    let whole = hole_punch::schedule(peer, config);
    let n = whole.len() as int;
    law_schedule_is_carried_out(peer, config, states, events, actions, n);
    lemma_packets_of_schedule(peer, config);
    lemma_packets_sent(peer, config, states, events, actions, n);
    lemma_packets_sent(peer, config, states, events, actions, events.len() as int);
    lemma_packets_sent_grow(actions, n, events.len() as int);
    assert(whole.take(n) =~= whole);
    assert(actions.take(events.len() as int) =~= actions);
}

/// Whether the delays between the attempts end before the timeout does.
pub open spec fn fits_timeout(config: PunchConfig) -> bool {
    &&& 0 < config.response_timeout@
    &&& config.attempts > 0 ==> (config.attempts - 1) * config.interval@
        < config.response_timeout@
}

/// The times of a silent run whose delays fit.
proof fn lemma_silent_times(
    peer: SocketAddr,
    config: PunchConfig,
    states: Seq<SessionModel>,
    events: Seq<(IoEvent, Duration)>,
    actions: Seq<ActionModel>,
    k: int,
)
    requires
        punches(peer, config, states, events, actions),
        silent(events, actions),
        fits_timeout(config),
        0 <= k < events.len(),
        k <= hole_punch::schedule(peer, config).len(),
    ensures
        events[k].1@ == events[0].1@ + (k - packets(hole_punch::schedule(peer, config).take(k)))
            * config.interval@,
        undisturbed(peer, config, events, k + 1),
    decreases k,
{
    let whole = hole_punch::schedule(peer, config);
    let interval = config.interval@ as int;
    let over = k - packets(whole.take(k));
    if k == 0 {
        assert(packets(whole.take(0)) == 0);
        assert(over * interval == 0) by (nonlinear_arith)
            requires
                over == 0,
        ;
    } else {
        lemma_silent_times(peer, config, states, events, actions, k - 1);
        law_schedule_is_carried_out(peer, config, states, events, actions, k);
        assert(actions[k - 1] is Send || actions[k - 1] is Sleep);
        assert(whole.take(k).drop_last() =~= whole.take(k - 1));
        assert(whole.take(k).last() == whole[k - 1]);
        let before = k - 1 - packets(whole.take(k - 1));
        assert(over == before + if whole[k - 1] is Pause {
            1int
        } else {
            0
        });
        lemma_packets_of_front(whole, k);
        lemma_packets_of_schedule(peer, config);
        lemma_packets_of_front(whole.take(k - 1), 0);
        assert(packets(whole.take(k - 1).take(0)) == 0);
        if config.attempts > 0 {
            let most = config.attempts - 1;
            assert(over <= most);
            assert(over * interval <= most * interval) by (nonlinear_arith)
                requires
                    over <= most,
                    interval >= 0,
            ;
        } else {
            assert(over <= 0);
            assert(over * interval <= 0) by (nonlinear_arith)
                requires
                    over <= 0,
                    interval >= 0,
            ;
        }
        assert((before + 1) * interval == before * interval + interval) by (nonlinear_arith);
        assert(events[k - 1].1@ == events[0].1@ + before * interval);
        if whole[k - 1] is Pause {
            let left = hole_punch::beginning(peer, config).time_left(
                events[0].1,
                events[k - 1].1,
            );
            assert(before * interval >= 0) by (nonlinear_arith)
                requires
                    before >= 0,
                    interval >= 0,
            ;
            assert(left == config.response_timeout@ - before * interval);
            assert(over * interval == before * interval + interval);
            assert(actions[k - 1] == ActionModel::Sleep { nanos: config.interval@ });
        } else {
            assert(over == before);
            assert(actions[k - 1] is Send);
        }
        assert(events[k].1@ == events[0].1@ + over * interval);
    }
}

/// Where the delays between the attempts end before the timeout does, and time
/// is lost for nothing else, every packet is sent.
pub proof fn law_all_packets_are_sent_in_time(
    peer: SocketAddr,
    config: PunchConfig,
    states: Seq<SessionModel>,
    events: Seq<(IoEvent, Duration)>,
    actions: Seq<ActionModel>,
)
    requires
        punches(peer, config, states, events, actions),
        silent(events, actions),
        fits_timeout(config),
        hole_punch::schedule(peer, config).len() < events.len(),
    ensures
        packets_sent(actions) == packets_owed(config),
{
    let n = hole_punch::schedule(peer, config).len() as int;
    lemma_silent_times(peer, config, states, events, actions, n);
    law_number_of_packets(peer, config, states, events, actions);
}

/// No session sends more packets than it has attempts and predicted ports.
pub proof fn law_no_more_packets(
    peer: SocketAddr,
    config: PunchConfig,
    states: Seq<SessionModel>,
    events: Seq<(IoEvent, Duration)>,
    actions: Seq<ActionModel>,
)
    requires
        punches(peer, config, states, events, actions),
    ensures
        packets_sent(actions) <= packets_owed(config),
{
    lemma_packets_sent(peer, config, states, events, actions, events.len() as int);
    assert(actions.take(events.len() as int) =~= actions);
}

/// Whether `to` is one of the ports that are predicted for the peer.
pub open spec fn predicted(peer: SocketAddr, config: PunchConfig, to: SocketAddr) -> bool {
    config.port_prediction && exists|i: int|
        0 <= i < config.port_prediction_range && to == #[trigger] peer.with_port(
            (peer.port() + 1 + i) as u16,
        )
}

/// A session sends nothing but punch packets, and sends them to the peer and to
/// the predicted ports alone.
pub proof fn law_punch_packets_only(
    peer: SocketAddr,
    config: PunchConfig,
    states: Seq<SessionModel>,
    events: Seq<(IoEvent, Duration)>,
    actions: Seq<ActionModel>,
    k: int,
)
    requires
        punches(peer, config, states, events, actions),
        0 <= k < events.len(),
        actions[k] is Send,
    ensures
        actions[k]->bytes == MessageModel::PunchAck.wire(),
        actions[k]->to == peer || predicted(peer, config, actions[k]->to),
{
    let whole = hole_punch::schedule(peer, config);
    lemma_run(peer, config, states, events, actions, k);
    assert((states[k + 1], actions[k]) == states[k].next(events[k].0, events[k].1));
    if k == 0 {
        assert(whole.skip(0) =~= whole);
    }
    assert(whole.skip(k)[0] == whole[k]);
    if let Step::Guess { to } = whole[k] {
        assert(to == peer.with_port((peer.port() + 1 + k) as u16));
    }
}

/// The predicted ports are those next above the port of the peer, each once
/// and in their order, on the host of the peer.
pub proof fn law_predicted_ports(peer: SocketAddr, config: PunchConfig, i: int)
    requires
        hole_punch::ports_exist(peer, config),
        config.port_prediction,
        0 <= i < config.port_prediction_range,
    ensures
        hole_punch::schedule(peer, config)[i] matches Step::Guess { to } && to.port() == peer.port()
            + 1 + i && to.with_port(peer.port()) == peer,
{
}

/// The settings without port prediction.
pub open spec fn unpredicted(config: PunchConfig) -> PunchConfig {
    PunchConfig { port_prediction: false, ..config }
}

/// What is left of the timeout at the `i`th event of a run.
pub open spec fn left_at(config: PunchConfig, events: Seq<(IoEvent, Duration)>, i: int) -> int {
    config.response_timeout@ - if events[i].1@ > events[0].1@ {
        events[i].1@ - events[0].1@
    } else {
        0
    }
}

/// Whether two runs of which the first has `extra` events in front meet with the
/// same: their other events are equal but for the very first of the second run,
/// which only begins it, and the timeout is over for both or for neither.
pub open spec fn meet_the_same(
    config: PunchConfig,
    events: Seq<(IoEvent, Duration)>,
    plain_events: Seq<(IoEvent, Duration)>,
    extra: int,
) -> bool {
    &&& events.len() == plain_events.len() + extra
    &&& forall|i: int|
        #![trigger events[i]]
        0 <= i < extra && plain_events.len() > 0 ==> (left_at(config, events, i) > 0 <==> left_at(
            config,
            plain_events,
            0,
        ) > 0)
    &&& forall|j: int|
        #![trigger plain_events[j]]
        0 <= j < plain_events.len() ==> {
            &&& j > 0 ==> events[extra + j].0 == plain_events[j].0
            &&& left_at(config, events, extra + j) > 0 <==> left_at(config, plain_events, j) > 0
        }
}

/// Whether two actions are the same but for how long a pause or a wait takes.
pub open spec fn alike(a: ActionModel, b: ActionModel) -> bool {
    match (a, b) {
        (ActionModel::Sleep { .. }, ActionModel::Sleep { .. }) => true,
        (ActionModel::Receive { .. }, ActionModel::Receive { .. }) => true,
        _ => a == b,
    }
}

/// Whether two sessions stand at the same place, whenever they began.
pub open spec fn level(a: Stage, b: Stage) -> bool {
    match (a, b) {
        (
            Stage::Sending { todo, last_was_attempt, .. },
            Stage::Sending { todo: t, last_was_attempt: l, .. },
        ) => todo == t && last_was_attempt == l,
        (Stage::Listening { .. }, Stage::Listening { .. }) => true,
        _ => a == b,
    }
}

/// The run of a session with port prediction, up to the first attempt.
proof fn lemma_guessing(
    peer: SocketAddr,
    config: PunchConfig,
    states: Seq<SessionModel>,
    events: Seq<(IoEvent, Duration)>,
    actions: Seq<ActionModel>,
    k: int,
)
    requires
        punches(peer, config, states, events, actions),
        0 <= k <= events.len(),
        k <= hole_punch::guesses(peer, config).len(),
        forall|i: int|
            #![trigger events[i]]
            0 <= i < k ==> (left_at(config, events, i) > 0 <==> config.response_timeout@ > 0),
    ensures
        config.response_timeout@ > 0 && k > 0 ==> states[k].stage is Sending
            && !(states[k].stage->last_was_attempt),
        config.response_timeout@ == 0 && k > 0 ==> states[k].stage is Finished,
        forall|i: int|
            0 <= i < k && config.response_timeout@ > 0 ==> #[trigger] actions[i]
                == hole_punch::beginning(peer, config).action_for(
                hole_punch::guesses(peer, config)[i],
                0,
            ),
    decreases k,
{
    let whole = hole_punch::schedule(peer, config);
    if k > 0 {
        lemma_guessing(peer, config, states, events, actions, k - 1);
        lemma_run(peer, config, states, events, actions, k - 1);
        assert((states[k], actions[k - 1]) == states[k - 1].next(
            events[k - 1].0,
            events[k - 1].1,
        ));
        if k == 1 {
            assert(whole.skip(0) =~= whole);
        }
        assert(left_at(config, events, k - 1) == states[k - 1].time_left(
            events[0].1,
            events[k - 1].1,
        ));
        assert(whole.skip(k - 1)[0] == whole[k - 1]);
        assert(whole[k - 1] == hole_punch::guesses(peer, config)[k - 1]);
    }
}

proof fn lemma_level(
    peer: SocketAddr,
    config: PunchConfig,
    states: Seq<SessionModel>,
    events: Seq<(IoEvent, Duration)>,
    actions: Seq<ActionModel>,
    plain_states: Seq<SessionModel>,
    plain_events: Seq<(IoEvent, Duration)>,
    plain_actions: Seq<ActionModel>,
    j: int,
)
    requires
        config.port_prediction,
        punches(peer, config, states, events, actions),
        punches(peer, unpredicted(config), plain_states, plain_events, plain_actions),
        meet_the_same(config, events, plain_events, config.port_prediction_range as int),
        0 <= j < plain_events.len(),
    ensures
        level(
            states[config.port_prediction_range + j + 1].stage,
            plain_states[j + 1].stage,
        ),
        alike(actions[config.port_prediction_range + j], plain_actions[j]),
        left_at(config, events, config.port_prediction_range + j) == left_at(
            config,
            plain_events,
            j,
        ) ==> actions[config.port_prediction_range + j] == plain_actions[j],
    decreases j,
{
    let extra = config.port_prediction_range as int;
    let plain = unpredicted(config);
    let k = extra + j;
    lemma_run(peer, config, states, events, actions, k);
    lemma_run(peer, plain, plain_states, plain_events, plain_actions, j);
    assert((states[k + 1], actions[k]) == states[k].next(events[k].0, events[k].1));
    assert((plain_states[j + 1], plain_actions[j]) == plain_states[j].next(
        plain_events[j].0,
        plain_events[j].1,
    ));
    assert(left_at(config, events, k) == states[k].time_left(events[0].1, events[k].1));
    assert(left_at(config, plain_events, j) == plain_states[j].time_left(
        plain_events[0].1,
        plain_events[j].1,
    ));
    let whole = hole_punch::schedule(peer, config);
    assert(hole_punch::attempts(plain) =~= hole_punch::attempts(config));
    assert(hole_punch::schedule(peer, plain) =~= hole_punch::attempts(config));
    assert(whole.skip(extra) =~= hole_punch::attempts(config));
    if j == 0 {
        lemma_guessing(peer, config, states, events, actions, extra);
        assert(whole.skip(0) =~= whole);
    } else {
        lemma_level(
            peer,
            config,
            states,
            events,
            actions,
            plain_states,
            plain_events,
            plain_actions,
            j - 1,
        );
    }
}

/// Port prediction only adds packets in front. Of two sessions that differ in it
/// alone and otherwise meet with the same, the one with port prediction first
/// sends a punch packet to each predicted port, whether or not they can be sent;
/// from then on both do the same and have the same result. Only the length of
/// a pause or of a wait can differ, and it does not where the extra packets take
/// no time.
pub proof fn law_port_prediction_only_adds_packets(
    peer: SocketAddr,
    config: PunchConfig,
    states: Seq<SessionModel>,
    events: Seq<(IoEvent, Duration)>,
    actions: Seq<ActionModel>,
    plain_states: Seq<SessionModel>,
    plain_events: Seq<(IoEvent, Duration)>,
    plain_actions: Seq<ActionModel>,
)
    requires
        config.port_prediction,
        punches(peer, config, states, events, actions),
        punches(peer, unpredicted(config), plain_states, plain_events, plain_actions),
        plain_events.len() > 0,
        meet_the_same(config, events, plain_events, config.port_prediction_range as int),
    ensures
        forall|i: int|
            0 <= i < config.port_prediction_range && config.response_timeout@ > 0
                ==> #[trigger] actions[i] == (ActionModel::Send {
                to: peer.with_port((peer.port() + 1 + i) as u16),
                bytes: MessageModel::PunchAck.wire(),
            }),
        forall|j: int|
            #![trigger plain_actions[j]]
            0 <= j < plain_events.len() ==> {
                let action = actions[config.port_prediction_range + j];
                &&& alike(action, plain_actions[j])
                &&& action is Send || action is Finish ==> action == plain_actions[j]
                &&& left_at(config, events, config.port_prediction_range + j) == left_at(
                    config,
                    plain_events,
                    j,
                ) ==> action == plain_actions[j]
            },
{
    let extra = config.port_prediction_range as int;
    lemma_guessing(peer, config, states, events, actions, extra);
    assert forall|j: int| #![trigger plain_actions[j]] 0 <= j < plain_events.len() implies {
        let action = actions[extra + j];
        &&& alike(action, plain_actions[j])
        &&& left_at(config, events, extra + j) == left_at(config, plain_events, j) ==> action
            == plain_actions[j]
    } by {
        lemma_level(
            peer,
            config,
            states,
            events,
            actions,
            plain_states,
            plain_events,
            plain_actions,
            j,
        );
    }
}

/// An attempt to send to the peer that fails ends the session with that error.
pub proof fn law_failed_attempt_ends_session(
    session: SessionModel,
    start: Duration,
    todo: Seq<Step>,
    error: std::io::Error,
    now: Duration,
)
    requires
        session.stage == (Stage::Sending { start, todo, last_was_attempt: true }),
    ensures
        session.next(IoEvent::SendFailed(error), now) == session.finish(
            Err(HolePunchError::Io(error)),
        ),
{
}

/// The timeout bounds the entire punch. Until the peer is heard, a session sends
/// nothing, pauses and waits for nothing beyond the timeout after its beginning;
/// and once the timeout is over, it gives up, whatever happens except that a
/// packet shows that the peer is reached.
pub proof fn law_session_is_bounded(
    peer: SocketAddr,
    config: PunchConfig,
    states: Seq<SessionModel>,
    events: Seq<(IoEvent, Duration)>,
    actions: Seq<ActionModel>,
    k: int,
)
    requires
        punches(peer, config, states, events, actions),
        0 <= k < events.len(),
        events[0].1@ <= events[k].1@,
        !(states[k].stage is Finished),
        !(states[k + 1].stage is Draining),
        !(states[k].stage is Draining),
    ensures
        match actions[k] {
            ActionModel::Send { .. } => events[k].1@ < deadline(config, events),
            ActionModel::Sleep { nanos } => events[k].1@ + nanos <= deadline(config, events),
            ActionModel::Receive { nanos } => events[k].1@ + nanos == deadline(config, events),
            ActionModel::Finish(result) => result is Err,
        },
        events[k].1@ >= deadline(config, events) ==> actions[k] is Finish,
        events[k].1@ >= deadline(config, events) && !(events[k].0 is SendFailed) ==> actions[k]
            == ActionModel::Finish(Err(HolePunchError::PunchFailed)),
        states[k + 1].stage is Finished <==> actions[k] is Finish,
{
    lemma_run(peer, config, states, events, actions, k);
    assert((states[k + 1], actions[k]) == states[k].next(events[k].0, events[k].1));
}

/// Whether nothing comes in while a session runs, every packet can be sent and
/// is sent at once, and every pause and every wait takes as long as it was
/// asked for.
pub open spec fn silent(events: Seq<(IoEvent, Duration)>, actions: Seq<ActionModel>) -> bool {
    forall|i: int|
        #![trigger actions[i]]
        0 <= i < events.len() - 1 ==> match actions[i] {
            ActionModel::Send { .. } => events[i + 1].0 is Done && events[i + 1].1@
                == events[i].1@,
            ActionModel::Sleep { nanos } => events[i + 1].0 is Done && events[i + 1].1@
                == events[i].1@ + nanos,
            ActionModel::Receive { nanos } => events[i + 1].0 == IoEvent::Read(
                RecvOutcome::TimedOut,
            ) && events[i + 1].1@ == events[i].1@ + nanos,
            ActionModel::Finish(_) => true,
        }
}

/// Whether a run gives up with one of its first `n` actions, no later than the
/// timeout after its beginning.
pub open spec fn gives_up_in_time(
    config: PunchConfig,
    events: Seq<(IoEvent, Duration)>,
    actions: Seq<ActionModel>,
    n: int,
) -> bool {
    exists|k: int|
        0 <= k < n && #[trigger] actions[k] == ActionModel::Finish(
            Err(HolePunchError::PunchFailed),
        ) && events[k].1@ <= deadline(config, events)
}

proof fn lemma_silence(
    peer: SocketAddr,
    config: PunchConfig,
    states: Seq<SessionModel>,
    events: Seq<(IoEvent, Duration)>,
    actions: Seq<ActionModel>,
    k: int,
)
    requires
        punches(peer, config, states, events, actions),
        silent(events, actions),
        0 <= k < events.len(),
        k <= hole_punch::schedule(peer, config).len() + 1,
    ensures
        gives_up_in_time(config, events, actions, k) || {
            &&& events[0].1@ <= events[k].1@ <= deadline(config, events)
            &&& k <= hole_punch::schedule(peer, config).len() ==> states[k].stage is Ready
                || (states[k].stage is Sending && events[k].0 is Done)
            &&& k == hole_punch::schedule(peer, config).len() + 1 ==> states[k].stage is Listening
                && events[k].0 == IoEvent::Read(RecvOutcome::TimedOut)
        },
    decreases k,
{
    if k > 0 {
        let j = k - 1;
        lemma_silence(peer, config, states, events, actions, j);
        lemma_run(peer, config, states, events, actions, j);
        assert((states[k], actions[j]) == states[j].next(events[j].0, events[j].1));
        if gives_up_in_time(config, events, actions, j) {
            let i = choose|i: int|
                0 <= i < j && #[trigger] actions[i] == ActionModel::Finish(
                    Err(HolePunchError::PunchFailed),
                ) && events[i].1@ <= deadline(config, events);
            assert(actions[i] is Finish);
        }
    }
}

/// A punch that nobody answers fails no later than the timeout after its
/// beginning: if all packets are sent at once, the session gives up at or before
/// that moment, sending included.
pub proof fn law_silent_punch_fails_in_time(
    peer: SocketAddr,
    config: PunchConfig,
    states: Seq<SessionModel>,
    events: Seq<(IoEvent, Duration)>,
    actions: Seq<ActionModel>,
)
    requires
        punches(peer, config, states, events, actions),
        silent(events, actions),
        events.len() >= hole_punch::schedule(peer, config).len() + 2,
    ensures
        gives_up_in_time(
            config,
            events,
            actions,
            (hole_punch::schedule(peer, config).len() + 2) as int,
        ),
{
    let k = (hole_punch::schedule(peer, config).len() + 1) as int;
    lemma_silence(peer, config, states, events, actions, k);
    assert((states[k + 1], actions[k]) == states[k].next(events[k].0, events[k].1));
    if gives_up_in_time(config, events, actions, k) {
        let i = choose|i: int|
            0 <= i < k && #[trigger] actions[i] == ActionModel::Finish(
                Err(HolePunchError::PunchFailed),
            ) && events[i].1@ <= deadline(config, events);
        assert(actions[i] is Finish);
    }
}

/// A session succeeds only with the address from which the first packet came
/// that shows, while the session listened, that the peer is reached: one from
/// the peer's address, or a punch packet.
pub proof fn law_success_means_heard(
    peer: SocketAddr,
    config: PunchConfig,
    states: Seq<SessionModel>,
    events: Seq<(IoEvent, Duration)>,
    actions: Seq<ActionModel>,
    k: int,
    addr: SocketAddr,
)
    requires
        punches(peer, config, states, events, actions),
        0 <= k < events.len(),
        actions[k] == ActionModel::Finish(Ok(addr)),
    ensures
        heard(peer, states, events, k, addr),
{
    lemma_run(peer, config, states, events, actions, k);
    assert((states[k + 1], actions[k]) == states[k].next(events[k].0, events[k].1));
}

/// Once a packet gets through, the hole is open: a session that listens and
/// reads any packet from the peer's address, or a punch packet from anywhere,
/// throws away what else came and ends with the address of the sender.
pub proof fn law_packet_opens_hole(
    session: SessionModel,
    start: Duration,
    data: Vec<u8>,
    from: SocketAddr,
    now: Duration,
    later: Duration,
)
    requires
        session.stage == (Stage::Listening { start }),
        from == session.peer || is_punch_packet(data@),
    ensures
        session.next(IoEvent::Read(RecvOutcome::Received { data, from }), now) == (
            SessionModel { stage: Stage::Draining { winner: from }, ..session },
            ActionModel::Receive { nanos: 1_000_000 },
        ),
        session.next(IoEvent::Read(RecvOutcome::Received { data, from }), now).0.next(
            IoEvent::Read(RecvOutcome::TimedOut),
            later,
        ).1 == ActionModel::Finish(Ok(from)),
{
    law_punch_packet(data@);
}

/// Any other packet is ignored, and so is a read that fails: a session that
/// listens goes on to do so until the same moment, or gives up if that moment
/// has passed.
pub proof fn law_other_packets_are_ignored(
    session: SessionModel,
    start: Duration,
    event: IoEvent,
    now: Duration,
)
    requires
        session.stage == (Stage::Listening { start }),
        !opens(session.peer, event),
        event != IoEvent::Read(RecvOutcome::TimedOut),
    ensures
        ({
            let passed = if now@ > start@ {
                now@ - start@
            } else {
                0
            };
            session.next(event, now) == if passed < session.config.response_timeout@ {
                (
                    session,
                    ActionModel::Receive {
                        nanos: (session.config.response_timeout@ - passed) as nat,
                    },
                )
            } else {
                (
                    SessionModel { stage: Stage::Finished, ..session },
                    ActionModel::Finish(Err(HolePunchError::PunchFailed)),
                )
            }
        }),
{
    if let IoEvent::Read(RecvOutcome::Received { data, .. }) = event {
        law_punch_packet(data@);
    }
}

/// A session that listens and hears nothing in time gives up.
pub proof fn law_silence_fails(session: SessionModel, start: Duration, now: Duration)
    requires
        session.stage == (Stage::Listening { start }),
    ensures
        session.next(IoEvent::Read(RecvOutcome::TimedOut), now) == (
            SessionModel { stage: Stage::Finished, ..session },
            ActionModel::Finish(Err(HolePunchError::PunchFailed)),
        ),
{
}

/// A session that throws packets away goes on for as long as packets come, each
/// within a millisecond, whatever they are and whoever sent them; then it ends
/// with its winner.
pub proof fn law_leftovers_are_thrown_away(
    session: SessionModel,
    winner: SocketAddr,
    event: IoEvent,
    now: Duration,
)
    requires
        session.stage == (Stage::Draining { winner }),
    ensures
        event matches IoEvent::Read(RecvOutcome::Received { .. }) ==> session.next(event, now) == (
            session,
            ActionModel::Receive { nanos: 1_000_000 },
        ),
        !(event matches IoEvent::Read(RecvOutcome::Received { .. })) ==> session.next(event, now)
            == (
            SessionModel { stage: Stage::Finished, ..session },
            ActionModel::Finish(Ok(winner)),
        ),
{
}

/// The number of predicted ports.
pub open spec fn guess_count(config: PunchConfig) -> int {
    if config.port_prediction {
        config.port_prediction_range as int
    } else {
        0
    }
}

/// The number of packets and of the pauses between those to the peer.
pub open spec fn step_count(config: PunchConfig) -> int {
    guess_count(config) + if config.attempts == 0 {
        0
    } else {
        2 * config.attempts - 1
    }
}

/// What a session asks for, in this order, as long as its timeout is not over
/// and no attempt to send to the peer fails: a punch packet to each port next
/// above that of the peer, as far as ports are predicted; then punch packets to
/// the peer, with a pause of the interval between each two, or what is left of
/// the timeout if that is less; then a read for what is left of the timeout.
/// If an attempt fails, that error is the result; if the timeout is over, the
/// session gives up.
pub proof fn law_order_of_actions(
    peer: SocketAddr,
    config: PunchConfig,
    states: Seq<SessionModel>,
    events: Seq<(IoEvent, Duration)>,
    actions: Seq<ActionModel>,
    k: int,
)
    requires
        punches(peer, config, states, events, actions),
        0 <= k < events.len(),
        states[k].stage is Ready || states[k].stage is Sending,
    ensures
        k <= step_count(config),
        ({
            let place = k - guess_count(config);
            let left = left_at(config, events, k);
            let punch = seq![5u8, 0, 0, 0];
            if place > 0 && place % 2 == 1 && events[k].0 is SendFailed {
                actions[k] == ActionModel::Finish(
                    Err(HolePunchError::Io(events[k].0->SendFailed_0)),
                )
            } else if left <= 0 {
                actions[k] == ActionModel::Finish(Err(HolePunchError::PunchFailed))
            } else if place < 0 {
                actions[k] == (ActionModel::Send {
                    to: peer.with_port((peer.port() + 1 + k) as u16),
                    bytes: punch,
                })
            } else if k == step_count(config) {
                actions[k] == (ActionModel::Receive { nanos: left as nat })
            } else if place % 2 == 0 {
                actions[k] == (ActionModel::Send { to: peer, bytes: punch })
            } else {
                actions[k] == (ActionModel::Sleep {
                    nanos: if config.interval@ < left {
                        config.interval@
                    } else {
                        left as nat
                    },
                })
            }
        }),
        actions[k] is Finish <==> states[k + 1].stage is Finished,
        actions[k] is Receive <==> states[k + 1].stage == (Stage::Listening {
            start: events[0].1,
        }),
        actions[k] is Send || actions[k] is Sleep ==> states[k + 1].stage is Sending,
{
    let whole = hole_punch::schedule(peer, config);
    law_punch_packet(seq![]);
    lemma_run(peer, config, states, events, actions, k);
    lemma_run(peer, config, states, events, actions, k + 1);
    assert((states[k + 1], actions[k]) == states[k].next(events[k].0, events[k].1));
    assert(left_at(config, events, k) == states[k].time_left(events[0].1, events[k].1));
    assert(whole.len() == step_count(config));
    if k == 0 {
        assert(whole.skip(0) =~= whole);
    }
    if k < whole.len() {
        assert(whole.skip(k)[0] == whole[k]);
    }
}

/// A session that is prepared has not begun and asks nothing of its settings.
pub proof fn law_beginning(peer: SocketAddr, config: PunchConfig)
    ensures
        hole_punch::beginning(peer, config).peer == peer,
        hole_punch::beginning(peer, config).config == config,
        hole_punch::beginning(peer, config).stage is Ready,
{
}

/// No step of a session changes whom it punches at or how.
pub proof fn law_session_keeps_its_peer(session: SessionModel, event: IoEvent, now: Duration)
    ensures
        session.next(event, now).0.peer == session.peer,
        session.next(event, now).0.config == session.config,
        session.next(event, now).0.stage is Finished <==> session.next(event, now).1 is Finish,
{
}

/// The settings that are used unless others are asked for: thirty attempts, fifty
/// milliseconds apart, five seconds for all, and no predicted ports, which would
/// be five.
pub proof fn law_default_settings(config: PunchConfig)
    ensures
        config.is_default() <==> {
            &&& config.attempts == 30
            &&& config.interval@ == 50_000_000
            &&& config.response_timeout@ == 5_000_000_000
            &&& !config.port_prediction
            &&& config.port_prediction_range == 5
        },
{
}

/// Without port prediction every peer can be punched at; with it, those whose
/// port leaves room for the predicted ones.
pub proof fn law_ports_exist(peer: SocketAddr, config: PunchConfig)
    ensures
        hole_punch::ports_exist(peer, config) <==> !config.port_prediction || peer.port()
            + config.port_prediction_range <= 65535,
{
}

/// A session that fails reports that nothing came through, or an error of the
/// socket.
pub proof fn law_failures(
    session: SessionModel,
    event: IoEvent,
    now: Duration,
    error: HolePunchError,
)
    requires
        session.next(event, now).1 == ActionModel::Finish(Err(error)),
    ensures
        error is PunchFailed || (event matches IoEvent::SendFailed(cause) && error
            == HolePunchError::Io(cause)),
{
}

} // verus!
