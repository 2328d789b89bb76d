//! Internet socket addresses as plain values.
use vstd::prelude::*;

verus! {

/// An IPv4 or IPv6 address with a UDP port. The octets stand in network order.
#[allow(inconsistent_fields)]
#[derive(Debug, Clone, Copy, Eq)]
pub enum SocketAddr {
    V4 { octets: [u8; 4], port: u16 },
    V6 { octets: [u8; 16], port: u16, flowinfo: u32, scope_id: u32 },
}

impl SocketAddr {
    /// The port of this address.
    pub open spec fn spec_port(self) -> u16 {
        match self {
            SocketAddr::V4 { port, .. } => port,
            SocketAddr::V6 { port, .. } => port,
        }
    }

    /// This address with another port.
    pub open spec fn spec_with_port(self, port: u16) -> SocketAddr {
        match self {
            SocketAddr::V4 { octets, .. } => SocketAddr::V4 { octets, port },
            SocketAddr::V6 { octets, flowinfo, scope_id, .. } => SocketAddr::V6 {
                octets,
                port,
                flowinfo,
                scope_id,
            },
        }
    }

    /// The port of this address.
    #[verifier::when_used_as_spec(spec_port)]
    pub fn port(self) -> (port: u16)
        ensures
            port == self.spec_port(),
    {
        match self {
            SocketAddr::V4 { port, .. } => port,
            SocketAddr::V6 { port, .. } => port,
        }
    }

    /// This address with another port.
    #[verifier::when_used_as_spec(spec_with_port)]
    pub fn with_port(self, port: u16) -> (addr: SocketAddr)
        ensures
            addr == self.spec_with_port(port),
    {
        match self {
            SocketAddr::V4 { octets, .. } => SocketAddr::V4 { octets, port },
            SocketAddr::V6 { octets, flowinfo, scope_id, .. } => SocketAddr::V6 {
                octets,
                port,
                flowinfo,
                scope_id,
            },
        }
    }
}

/// Another port is the new one, on the same host: to go back to the port of an
/// address gives back that address.
pub proof fn law_another_port(addr: SocketAddr, port: u16)
    ensures
        addr.with_port(port).port() == port,
        addr.with_port(port).with_port(addr.port()) == addr,
        addr matches SocketAddr::V4 { octets, port: own } ==> addr.port() == own && addr.with_port(
            port,
        ) == (SocketAddr::V4 { octets, port }),
        addr matches SocketAddr::V6 { octets, port: own, flowinfo, scope_id } ==> addr.port() == own
            && addr.with_port(port) == (SocketAddr::V6 { octets, port, flowinfo, scope_id }),
{
}

/// Compares two byte arrays of one length.
fn same_octets<const N: usize>(a: &[u8; N], b: &[u8; N]) -> (same: bool)
    ensures
        same == (*a == *b),
{
    let mut i: usize = 0;
    while i < N
        invariant
            i <= N,
            forall|j: int| 0 <= j < i ==> a@[j] == b@[j],
        decreases N - i,
    {
        if a[i] != b[i] {
            return false;
        }
        i += 1;
    }
    assert(a@ =~= b@);
    assert(*a =~= *b);
    true
}

impl PartialEq for SocketAddr {
    fn eq(&self, other: &Self) -> (same: bool) {
        match (self, other) {
            (
                SocketAddr::V4 { octets: a, port: p },
                SocketAddr::V4 { octets: b, port: q },
            ) => *p == *q && same_octets(a, b),
            (
                SocketAddr::V6 { octets: a, port: p, flowinfo: f, scope_id: s },
                SocketAddr::V6 { octets: b, port: q, flowinfo: g, scope_id: t },
            ) => *p == *q && *f == *g && *s == *t && same_octets(a, b),
            _ => false,
        }
    }
}

impl vstd::std_specs::cmp::PartialEqSpecImpl for SocketAddr {
    open spec fn obeys_eq_spec() -> bool {
        true
    }

    open spec fn eq_spec(&self, other: &Self) -> bool {
        *self == *other
    }
}

} // verus!
