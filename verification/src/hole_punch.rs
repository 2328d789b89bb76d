//! The hole punch: packets to a peer, and the wait for one of its packets.
//!
//! A session here touches no socket and no clock. It says what to do next, and
//! is told what came of it and when.
use vstd::prelude::*;

use crate::addr::SocketAddr;
use crate::duration::{Duration, NANOS_PER_MILLI, NANOS_PER_SEC};
use crate::error::HolePunchError;
use crate::event::{IoEvent, RecvOutcome};
use crate::protocol;
use crate::protocol::{datagram, decode, Datagram, Message, MessageModel};

verus! {

/// How to punch.
///
/// The timeout counts from the beginning of the punch. It bounds the sending,
/// too: where the attempts and the delays between them take longer, the timeout
/// wins, and the packets that are left are not sent.
#[derive(Debug, Clone, Copy)]
pub struct PunchConfig {
    /// Number of punch packets to send
    pub attempts: u32,
    /// Delay between punch attempts
    pub interval: Duration,
    /// Timeout for the entire punch operation
    pub response_timeout: Duration,
    /// Whether to enable port prediction (for symmetric NAT)
    pub port_prediction: bool,
    /// Number of consecutive ports to try for prediction
    pub port_prediction_range: u16,
}

impl PunchConfig {
    /// Whether this is what is used unless something else is asked for.
    pub open spec fn is_default(self) -> bool {
        &&& self.attempts == 30
        &&& self.interval@ == 50 * NANOS_PER_MILLI as nat
        &&& self.response_timeout@ == 5 * NANOS_PER_SEC as nat
        &&& !self.port_prediction
        &&& self.port_prediction_range == 5
    }
}

impl Default for PunchConfig {
    fn default() -> (config: Self)
        ensures
            config.is_default(),
    {
        PunchConfig {
            attempts: 30,
            interval: Duration::from_millis(50),
            response_timeout: Duration::from_secs(5),
            port_prediction: false,
            port_prediction_range: 5,
        }
    }
}

/// The milliseconds without a packet after which the socket counts as drained.
pub const DRAIN_MILLIS: u64 = 1;

/// What to do next.
#[derive(Debug)]
pub enum PunchAction {
    /// Send a packet.
    Send { packet: Datagram },
    /// Let some time pass.
    Sleep { delay: Duration },
    /// Wait for a packet, but no longer than this.
    Receive { timeout: Duration },
    /// Stop: the peer is reached at an address, or not at all.
    Finish(Result<SocketAddr, HolePunchError>),
}

/// An action, over mathematical values.
pub enum ActionModel {
    Send { to: SocketAddr, bytes: Seq<u8> },
    Sleep { nanos: nat },
    Receive { nanos: nat },
    Finish(Result<SocketAddr, HolePunchError>),
}

impl View for PunchAction {
    type V = ActionModel;

    open spec fn view(&self) -> ActionModel {
        match *self {
            PunchAction::Send { packet } => ActionModel::Send { to: packet.to, bytes: packet.bytes@ },
            PunchAction::Sleep { delay } => ActionModel::Sleep { nanos: delay@ },
            PunchAction::Receive { timeout } => ActionModel::Receive { nanos: timeout@ },
            PunchAction::Finish(result) => ActionModel::Finish(result),
        }
    }
}

/// One step of the first part of a session, in which it sends.
pub enum Step {
    /// A packet to a port that the peer may use as well. It may get lost.
    Guess { to: SocketAddr },
    /// A packet to the peer.
    Attempt,
    /// A pause.
    Pause,
}

/// The packets to guessed ports: one for each of the ports next above that of
/// the peer.
pub open spec fn guesses(peer: SocketAddr, config: PunchConfig) -> Seq<Step> {
    if config.port_prediction {
        Seq::new(
            config.port_prediction_range as nat,
            |i: int| Step::Guess { to: peer.with_port((peer.port() + 1 + i) as u16) },
        )
    } else {
        seq![]
    }
}

/// The packets to the peer, with a pause between each two.
pub open spec fn attempts(config: PunchConfig) -> Seq<Step> {
    Seq::new(
        if config.attempts == 0 {
            0
        } else {
            (2 * config.attempts - 1) as nat
        },
        |i: int|
            if i % 2 == 0 {
                Step::Attempt
            } else {
                Step::Pause
            },
    )
}

/// All that a session sends if the time for it is enough, in this order.
pub open spec fn schedule(peer: SocketAddr, config: PunchConfig) -> Seq<Step> {
    guesses(peer, config) + attempts(config)
}

/// Where a session stands.
#[verifier::ext_equal]
pub enum Stage {
    /// It has not begun.
    Ready,
    /// It began at `start`, and these steps are left. A failure to send ends
    /// the session if the last step was an attempt.
    Sending { start: Duration, todo: Seq<Step>, last_was_attempt: bool },
    /// It began at `start`. All is sent, and it waits for an answer.
    Listening { start: Duration },
    /// The peer is reached. Packets that came meanwhile are thrown away.
    Draining { winner: SocketAddr },
    /// It is over.
    Finished,
}

/// A session: whom to reach, how, and where it stands.
#[verifier::ext_equal]
pub struct SessionModel {
    pub peer: SocketAddr,
    pub config: PunchConfig,
    pub stage: Stage,
}

/// A session that has not begun.
pub open spec fn beginning(peer: SocketAddr, config: PunchConfig) -> SessionModel {
    SessionModel { peer, config, stage: Stage::Ready }
}

/// Whether a packet shows that a peer is reached: it comes from the address
/// that is punched at, or it is a punch packet from elsewhere.
pub open spec fn opens_hole(peer: SocketAddr, from: SocketAddr, data: Seq<u8>) -> bool {
    from == peer || protocol::decoded(data) == Some(MessageModel::PunchAck)
}

impl SessionModel {
    /// The nanoseconds that are left at `now` to a session that began at
    /// `start`.
    pub open spec fn time_left(self, start: Duration, now: Duration) -> int {
        self.config.response_timeout@ - if now@ > start@ {
            now@ - start@
        } else {
            0
        }
    }

    /// The action that a step stands for when so much time is left. A pause
    /// does not outlast it.
    pub open spec fn action_for(self, step: Step, left: int) -> ActionModel {
        match step {
            Step::Guess { to } => ActionModel::Send { to, bytes: MessageModel::PunchAck.wire() },
            Step::Attempt => ActionModel::Send {
                to: self.peer,
                bytes: MessageModel::PunchAck.wire(),
            },
            Step::Pause => ActionModel::Sleep {
                nanos: if self.config.interval@ < left {
                    self.config.interval@
                } else {
                    left as nat
                },
            },
        }
    }

    /// The session at another stage.
    pub open spec fn at(self, stage: Stage) -> SessionModel {
        SessionModel { stage, ..self }
    }

    /// The end of the session with a result.
    pub open spec fn finish(self, result: Result<SocketAddr, HolePunchError>) -> (
        SessionModel,
        ActionModel,
    ) {
        (self.at(Stage::Finished), ActionModel::Finish(result))
    }

    /// The wait for an answer, for as long as the timeout allows at `now`.
    pub open spec fn listen(self, start: Duration, now: Duration) -> (SessionModel, ActionModel) {
        let left = self.time_left(start, now);
        if left > 0 {
            (self.at(Stage::Listening { start }), ActionModel::Receive { nanos: left as nat })
        } else {
            self.finish(Err(HolePunchError::PunchFailed))
        }
    }

    /// The throwing away of packets, one at a time.
    pub open spec fn drain(self, winner: SocketAddr) -> (SessionModel, ActionModel) {
        (
            self.at(Stage::Draining { winner }),
            ActionModel::Receive { nanos: DRAIN_MILLIS as nat * NANOS_PER_MILLI as nat },
        )
    }

    /// The next of the steps that are left, or the wait for an answer if none
    /// is; but the end if the time is over.
    pub open spec fn send_next(self, start: Duration, todo: Seq<Step>, now: Duration) -> (
        SessionModel,
        ActionModel,
    ) {
        let left = self.time_left(start, now);
        if todo.len() > 0 && left > 0 {
            (
                self.at(
                    Stage::Sending {
                        start,
                        todo: todo.skip(1),
                        last_was_attempt: todo[0] is Attempt,
                    },
                ),
                self.action_for(todo[0], left),
            )
        } else {
            self.listen(start, now)
        }
    }

    /// What the session does upon an event.
    pub open spec fn next(self, event: IoEvent, now: Duration) -> (SessionModel, ActionModel) {
        match self.stage {
            Stage::Ready => self.send_next(now, schedule(self.peer, self.config), now),
            Stage::Sending { start, todo, last_was_attempt } => if event is SendFailed
                && last_was_attempt {
                self.finish(Err(HolePunchError::Io(event->SendFailed_0)))
            } else {
                self.send_next(start, todo, now)
            },
            Stage::Listening { start } => match event {
                IoEvent::Read(RecvOutcome::Received { data, from }) => if opens_hole(
                    self.peer,
                    from,
                    data@,
                ) {
                    self.drain(from)
                } else {
                    self.listen(start, now)
                },
                IoEvent::Read(RecvOutcome::TimedOut) => self.finish(
                    Err(HolePunchError::PunchFailed),
                ),
                _ => self.listen(start, now),
            },
            Stage::Draining { winner } => match event {
                IoEvent::Read(RecvOutcome::Received { .. }) => self.drain(winner),
                _ => self.finish(Ok(winner)),
            },
            Stage::Finished => (self, ActionModel::Finish(Err(HolePunchError::PunchFailed))),
        }
    }
}

/// How far a session has come.
#[derive(Clone, Copy)]
enum Progress {
    Ready,
    /// The next packet goes to the port this far above that of the peer.
    Guessing { start: Duration, offset: u32 },
    /// This many attempts and pauses have begun, each of which but the last is
    /// over. There is at least one.
    Attempting { start: Duration, begun: u64 },
    Listening { start: Duration },
    Draining { winner: SocketAddr },
    Finished,
}

/// A hole punch that is under way.
pub struct PunchSession {
    peer: SocketAddr,
    config: PunchConfig,
    progress: Progress,
}

impl View for PunchSession {
    type V = SessionModel;

    closed spec fn view(&self) -> SessionModel {
        SessionModel {
            peer: self.peer,
            config: self.config,
            stage: match self.progress {
                Progress::Ready => Stage::Ready,
                Progress::Guessing { start, offset } => Stage::Sending {
                    start,
                    todo: schedule(self.peer, self.config).skip(offset - 1),
                    last_was_attempt: false,
                },
                Progress::Attempting { start, begun } => Stage::Sending {
                    start,
                    todo: attempts(self.config).skip(begun as int),
                    last_was_attempt: begun % 2 == 1,
                },
                Progress::Listening { start } => Stage::Listening { start },
                Progress::Draining { winner } => Stage::Draining { winner },
                Progress::Finished => Stage::Finished,
            },
        }
    }
}

/// Whether the guessed ports are ports.
pub open spec fn ports_exist(peer: SocketAddr, config: PunchConfig) -> bool {
    config.port_prediction ==> peer.port() + config.port_prediction_range <= u16::MAX
}

/// Prepares a hole punch. It begins with the first call of
/// [`PunchSession::advance`], which says what to do.
pub fn punch_hole(peer_addr: SocketAddr, config: &PunchConfig) -> (session: PunchSession)
    requires
        ports_exist(peer_addr, *config),
    ensures
        session.wf(),
        session@ == beginning(peer_addr, *config),
{
    PunchSession { peer: peer_addr, config: *config, progress: Progress::Ready }
}

impl PunchSession {
    /// The guessed ports exist, and the progress lies within the schedule.
    pub closed spec fn wf(&self) -> bool {
        &&& ports_exist(self.peer, self.config)
        &&& match self.progress {
            Progress::Guessing { offset, .. } => 1 <= offset <= guesses(
                self.peer,
                self.config,
            ).len() + 1,
            Progress::Attempting { begun, .. } => 1 <= begun <= attempts(self.config).len(),
            _ => true,
        }
    }

    /// Ends the session.
    fn finish(&mut self, result: Result<SocketAddr, HolePunchError>) -> (action: PunchAction)
        requires
            old(self).wf(),
        ensures
            final(self).wf(),
            (final(self)@, action@) == old(self)@.finish(result),
    {
        self.progress = Progress::Finished;
        PunchAction::Finish(result)
    }

    /// The time that is left to the session.
    fn time_left(&self, start: Duration, now: Duration) -> (left: Duration)
        ensures
            left@ == if self@.time_left(start, now) > 0 {
                self@.time_left(start, now) as nat
            } else {
                0
            },
    {
        self.config.response_timeout.saturating_sub(now.saturating_sub(start))
    }

    /// Waits for an answer, or gives up if the time is over.
    fn listen(&mut self, start: Duration, now: Duration) -> (action: PunchAction)
        requires
            old(self).wf(),
        ensures
            final(self).wf(),
            (final(self)@, action@) == old(self)@.listen(start, now),
    {
        let timeout = self.time_left(start, now);
        if Duration::from_secs(0).is_shorter_than(&timeout) {
            self.progress = Progress::Listening { start };
            PunchAction::Receive { timeout }
        } else {
            self.finish(Err(HolePunchError::PunchFailed))
        }
    }

    /// Throws packets away that came while the session was listening.
    fn drain(&mut self, winner: SocketAddr) -> (action: PunchAction)
        requires
            old(self).wf(),
        ensures
            final(self).wf(),
            (final(self)@, action@) == old(self)@.drain(winner),
    {
        self.progress = Progress::Draining { winner };
        PunchAction::Receive { timeout: Duration::from_millis(DRAIN_MILLIS) }
    }

    /// Takes the next of the attempts and pauses, or starts to listen if all
    /// are over; gives up if the time is over.
    fn attempt(&mut self, start: Duration, begun: u64, now: Duration) -> (action: PunchAction)
        requires
            old(self).wf(),
            begun <= attempts(old(self)@.config).len(),
        ensures
            final(self).wf(),
            (final(self)@, action@) == old(self)@.send_next(
                start,
                attempts(old(self)@.config).skip(begun as int),
                now,
            ),
    {
        let ghost todo = attempts(self.config).skip(begun as int);
        let count: u64 = if self.config.attempts == 0 {
            0
        } else {
            2 * (self.config.attempts as u64) - 1
        };
        let left = self.time_left(start, now);
        if begun < count && Duration::from_secs(0).is_shorter_than(&left) {
            assert(todo[0] == attempts(self.config)[begun as int]);
            assert(todo.skip(1) =~= attempts(self.config).skip(begun + 1));
            self.progress = Progress::Attempting { start, begun: begun + 1 };
            if begun % 2 == 0 {
                PunchAction::Send { packet: datagram(self.peer, &Message::PunchAck) }
            } else if self.config.interval.is_shorter_than(&left) {
                PunchAction::Sleep { delay: self.config.interval }
            } else {
                PunchAction::Sleep { delay: left }
            }
        } else {
            self.listen(start, now)
        }
    }

    /// Takes the next of the packets to guessed ports, or goes on to the
    /// attempts; gives up if the time is over.
    fn guess(&mut self, start: Duration, offset: u32, now: Duration) -> (action: PunchAction)
        requires
            old(self).wf(),
            1 <= offset <= guesses(old(self)@.peer, old(self)@.config).len() + 1,
        ensures
            final(self).wf(),
            (final(self)@, action@) == old(self)@.send_next(
                start,
                schedule(old(self)@.peer, old(self)@.config).skip(offset - 1),
                now,
            ),
    {
        let ghost whole = schedule(self.peer, self.config);
        let ghost todo = whole.skip(offset - 1);
        if self.config.port_prediction && offset <= self.config.port_prediction_range as u32 {
            let left = self.time_left(start, now);
            if Duration::from_secs(0).is_shorter_than(&left) {
                assert(todo[0] == whole[offset - 1]);
                assert(todo.skip(1) =~= whole.skip(offset as int));
                let to = self.peer.with_port(self.peer.port() + offset as u16);
                self.progress = Progress::Guessing { start, offset: offset + 1 };
                PunchAction::Send { packet: datagram(to, &Message::PunchAck) }
            } else {
                self.listen(start, now)
            }
        } else {
            assert(todo =~= attempts(self.config).skip(0));
            self.attempt(start, 0, now)
        }
    }

    /// Takes in what came of the last action, and when, and says what to do next.
    /// The first call begins the punch, whatever its event is.
    pub fn advance(&mut self, event: IoEvent, now: Duration) -> (action: PunchAction)
        requires
            old(self).wf(),
            old(self)@.stage !is Finished,
        ensures
            final(self).wf(),
            (final(self)@, action@) == old(self)@.next(event, now),
    {
        match self.progress {
            Progress::Ready => {
                let ghost whole = schedule(self.peer, self.config);
                assert(whole.skip(0) =~= whole);
                self.guess(now, 1, now)
            },
            Progress::Guessing { start, offset } => self.guess(start, offset, now),
            Progress::Attempting { start, begun } => {
                if let IoEvent::SendFailed(error) = event {
                    if begun % 2 == 1 {
                        return self.finish(Err(HolePunchError::Io(error)));
                    }
                }
                self.attempt(start, begun, now)
            },
            Progress::Listening { start } => match event {
                IoEvent::Read(RecvOutcome::Received { data, from }) => {
                    let reached = if from == self.peer {
                        true
                    } else {
                        match decode(data.as_slice()) {
                            Ok(Message::PunchAck) => true,
                            _ => false,
                        }
                    };
                    if reached {
                        self.drain(from)
                    } else {
                        self.listen(start, now)
                    }
                },
                IoEvent::Read(RecvOutcome::TimedOut) => self.finish(Err(HolePunchError::PunchFailed)),
                _ => self.listen(start, now),
            },
            Progress::Draining { winner } => match event {
                IoEvent::Read(RecvOutcome::Received { .. }) => self.drain(winner),
                _ => self.finish(Ok(winner)),
            },
            Progress::Finished => self.finish(Err(HolePunchError::PunchFailed)),
        }
    }
}

} // verus!
