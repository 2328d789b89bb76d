pub mod addr;
pub mod client;
pub mod client_laws;
mod codec;
pub mod duration;
pub mod error;
pub mod event;
pub mod flow;
pub mod flow_laws;
pub mod hole_punch;
pub mod hole_punch_laws;
pub mod protocol;
pub mod rendezvous_laws;
pub mod server;
pub mod server_laws;
pub mod service;
pub mod service_laws;
pub mod wire;
pub mod wire_laws;

pub use addr::SocketAddr;
pub use client::{HolePunchClient, IncomingConnection, PeerConnection};
pub use duration::Duration;
pub use error::HolePunchError;
pub use event::{IoEvent, RecvOutcome};
pub use flow::{accept_and_punch, full_hole_punch};
pub use hole_punch::{punch_hole, PunchConfig};
pub use protocol::Message;
pub use server::RendezvousServer;
pub use service::Service;
