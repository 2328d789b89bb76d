//! What holds of a client over several operations.
use vstd::prelude::*;

use crate::addr::SocketAddr;
use crate::client;
use crate::client::{ClientModel, Heard};
use crate::duration::Duration;
use crate::error::HolePunchError;
use crate::event::RecvOutcome;
use crate::hole_punch;
use crate::hole_punch::PunchConfig;
use crate::protocol;
use crate::protocol::MessageModel;

verus! {

/// Whether a read brings a packet from `server` that begins with the bytes of
/// the message `m`.
pub open spec fn delivers(server: SocketAddr, outcome: RecvOutcome, m: MessageModel) -> bool {
    &&& outcome matches RecvOutcome::Received { data, from }
    &&& from == server
    &&& m.wire().is_prefix_of(data@)
    &&& m.lengths_fit()
    &&& m.sent() == m
}

/// A client hears a message exactly if its server delivers it.
pub proof fn law_delivered_messages_are_heard(
    server: SocketAddr,
    outcome: RecvOutcome,
    m: MessageModel,
)
    ensures
        client::heard(server, outcome) == Heard::Message(m) <==> delivers(server, outcome, m),
{
    if let RecvOutcome::Received { data, .. } = outcome {
        protocol::law_decoded_means_encoded(data@, m);
    }
}

/// A read that fails is heard as its error, and one in which nothing comes as a
/// timeout.
pub proof fn law_failures_are_heard(server: SocketAddr, error: std::io::Error)
    ensures
        client::heard(server, RecvOutcome::Failed(error)) == Heard::Failure(
            HolePunchError::Io(error),
        ),
        client::heard(server, RecvOutcome::TimedOut) == Heard::Failure(HolePunchError::Timeout),
{
}

/// A packet is not heard exactly if it delivers no message of the server.
pub proof fn law_nothing_is_heard(server: SocketAddr, data: Vec<u8>, from: SocketAddr)
    ensures
        (forall|m: MessageModel|
            !#[trigger] delivers(server, RecvOutcome::Received { data, from }, m))
            <==> client::heard(server, RecvOutcome::Received { data, from }) == Heard::Nothing,
{
    let outcome = RecvOutcome::Received { data, from };
    assert forall|m: MessageModel|
        client::heard(server, outcome) == Heard::Message(m) <==> #[trigger] delivers(
            server,
            outcome,
            m,
        ) by {
        law_delivered_messages_are_heard(server, outcome, m);
    }
    if let Heard::Message(m) = client::heard(server, outcome) {
        assert(delivers(server, outcome, m));
    }
}

/// The request of another peer that comes while something else is awaited is put
/// behind those that are there; no other message changes anything.
pub proof fn law_passed_over_messages(client: ClientModel, m: MessageModel)
    ensures
        m matches MessageModel::PunchRequest { from_peer_id, from_addr } ==> client.pass_over(m)
            == (ClientModel { pending: client.pending.push((from_peer_id, from_addr)), ..client }),
        !(m is PunchRequest) ==> client.pass_over(m) == client,
{
}

/// Each operation changes one thing of a client and nothing else.
pub proof fn law_one_thing_changes(
    client: ClientModel,
    config: PunchConfig,
    recv_timeout: Duration,
    peer_id: Seq<char>,
    addr: SocketAddr,
)
    ensures
        client.configured(config) == (ClientModel { config, ..client }),
        client.patient(recv_timeout) == (ClientModel { recv_timeout, ..client }),
        client.named(peer_id) == (ClientModel { peer_id, ..client }),
        client.seen_at(addr) == (ClientModel { public_addr: addr, ..client }),
        client.accepted() == (ClientModel { pending: client.pending.skip(1), ..client }),
        client.punch(addr).peer == addr,
        client.punch(addr).config == client.config,
        client.punch(addr).stage is Ready,
{
}

/// The address of a client that has not registered is 0.0.0.0:0, and an error of
/// the server carries its text and no other.
pub proof fn law_small_words_of_a_client(error: HolePunchError, message: String, text: Seq<char>)
    ensures
        client::unspecified_addr() == (SocketAddr::V4 { octets: [0, 0, 0, 0], port: 0 }),
        client::server_error(HolePunchError::Server(message), text) <==> message@ == text,
        !(error is Server) ==> !client::server_error(error, text),
{
}

/// What an operation does to a client.
pub enum Change {
    Configured { config: PunchConfig },
    Patient { recv_timeout: Duration },
    Named { peer_id: Seq<char> },
    SeenAt { public_addr: SocketAddr },
    PassedOver { message: MessageModel },
    Accepted,
}

/// The client after one change.
pub open spec fn changed(client: ClientModel, change: Change) -> ClientModel {
    match change {
        Change::Configured { config } => client.configured(config),
        Change::Patient { recv_timeout } => client.patient(recv_timeout),
        Change::Named { peer_id } => client.named(peer_id),
        Change::SeenAt { public_addr } => client.seen_at(public_addr),
        Change::PassedOver { message } => client.pass_over(message),
        Change::Accepted => client.accepted(),
    }
}

/// The client after several changes.
pub open spec fn changed_by_all(client: ClientModel, changes: Seq<Change>) -> ClientModel
    decreases changes.len(),
{
    if changes.len() == 0 {
        client
    } else {
        changed(changed_by_all(client, changes.drop_last()), changes.last())
    }
}

/// The settings for hole punches that were set last, or `first` if none were.
pub open spec fn last_config(first: PunchConfig, changes: Seq<Change>) -> PunchConfig
    decreases changes.len(),
{
    if changes.len() == 0 {
        first
    } else {
        match changes.last() {
            Change::Configured { config } => config,
            _ => last_config(first, changes.drop_last()),
        }
    }
}

/// A client punches with the settings that were set last, whatever else was done
/// with it before and since: its hole punch is the one that begins at the same
/// address with those settings.
pub proof fn law_punch_to_uses_last_config(
    client: ClientModel,
    changes: Seq<Change>,
    peer_addr: SocketAddr,
)
    ensures
        changed_by_all(client, changes).config == last_config(client.config, changes),
        changed_by_all(client, changes).punch(peer_addr) == hole_punch::beginning(
            peer_addr,
            last_config(client.config, changes),
        ),
    decreases changes.len(),
{
    if changes.len() > 0 {
        law_punch_to_uses_last_config(client, changes.drop_last(), peer_addr);
    }
}

/// The requests of other peers that were passed over, in their order.
pub open spec fn requests(changes: Seq<Change>) -> Seq<(Seq<char>, SocketAddr)>
    decreases changes.len(),
{
    if changes.len() == 0 {
        seq![]
    } else {
        match changes.last() {
            Change::PassedOver {
                message: MessageModel::PunchRequest { from_peer_id, from_addr },
            } => requests(changes.drop_last()).push((from_peer_id, from_addr)),
            _ => requests(changes.drop_last()),
        }
    }
}

/// The number of requests that were accepted.
pub open spec fn acceptances(changes: Seq<Change>) -> nat
    decreases changes.len(),
{
    if changes.len() == 0 {
        0
    } else {
        acceptances(changes.drop_last()) + if changes.last() is Accepted {
            1nat
        } else {
            0nat
        }
    }
}

/// Whether a request was there each time that one was accepted, if `waiting`
/// were there before.
pub open spec fn orderly(waiting: nat, changes: Seq<Change>) -> bool
    decreases changes.len(),
{
    changes.len() > 0 ==> {
        let earlier = changes.drop_last();
        &&& orderly(waiting, earlier)
        &&& changes.last() is Accepted ==> acceptances(earlier) < waiting + requests(earlier).len()
    }
}

/// Requests are accepted in the order in which they came: of those that were
/// there and those that came since, as many are gone from the front as were
/// accepted, and the others are left as they were. Nothing else that is done
/// with the client touches them.
pub proof fn law_requests_are_accepted_in_order(client: ClientModel, changes: Seq<Change>)
    requires
        orderly(client.pending.len(), changes),
    ensures
        acceptances(changes) <= client.pending.len() + requests(changes).len(),
        changed_by_all(client, changes).pending == (client.pending + requests(changes)).skip(
            acceptances(changes) as int,
        ),
    decreases changes.len(),
{
    if changes.len() == 0 {
        assert(client.pending + requests(changes) =~= client.pending);
        assert(client.pending.skip(0) =~= client.pending);
    } else {
        let earlier = changes.drop_last();
        law_requests_are_accepted_in_order(client, earlier);
        assert(changed_by_all(client, changes).pending =~= (client.pending + requests(
            changes,
        )).skip(acceptances(changes) as int));
    }
}

/// To change the settings for hole punches changes nothing else of a client.
pub proof fn law_config_is_all_that_changes(client: ClientModel, config: PunchConfig)
    ensures
        client.configured(config).config == config,
        client.configured(config).configured(client.config) == client,
{
}

} // verus!
