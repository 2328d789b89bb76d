//! What comes of the work at a socket.
use vstd::prelude::*;

use crate::addr::SocketAddr;

verus! {

/// The outcome of a read from the socket.
#[derive(Debug)]
pub enum RecvOutcome {
    /// A packet came in.
    Received { data: Vec<u8>, from: SocketAddr },
    /// The socket could not be read.
    Failed(std::io::Error),
    /// Nothing came in time.
    TimedOut,
}

/// What came of the last action.
#[derive(Debug)]
pub enum IoEvent {
    /// A packet was sent, or a pause is over.
    Done,
    /// A packet could not be sent.
    SendFailed(std::io::Error),
    /// A read has come to an end.
    Read(RecvOutcome),
}

} // verus!
