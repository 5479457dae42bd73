//! Which socket addresses a guest may use.
//!
//! The policy is a pure predicate over plain values: an address, what the
//! guest wants to do with it, and the one IPv4 address it has been granted.

use vstd::prelude::*;

verus! {

/// An IPv4 address, by its four octets.
#[derive(Clone, Copy, Debug, PartialEq, Eq, Structural)]
pub struct Ipv4Addr {
    pub a: u8,
    pub b: u8,
    pub c: u8,
    pub d: u8,
}

impl Ipv4Addr {
    /// The address `a.b.c.d`.
    pub fn new(a: u8, b: u8, c: u8, d: u8) -> (ip: Ipv4Addr)
        ensures
            ip == (Ipv4Addr { a, b, c, d }),
    {
        Ipv4Addr { a, b, c, d }
    }

    /// The four octets, first to last.
    pub fn octets(&self) -> (o: [u8; 4])
        ensures
            o@ == seq![self.a, self.b, self.c, self.d],
    {
        [self.a, self.b, self.c, self.d]
    }
}

/// An IPv4 socket address.
#[derive(Clone, Copy, Debug, PartialEq, Eq, Structural)]
pub struct SocketAddrV4 {
    pub ip: Ipv4Addr,
    pub port: u16,
}

/// An IPv6 socket address; the address is held as its 128 bits.
#[derive(Clone, Copy, Debug, PartialEq, Eq, Structural)]
pub struct SocketAddrV6 {
    pub ip: u128,
    pub port: u16,
}

/// A socket address of either family.
#[derive(Clone, Copy, Debug, PartialEq, Eq, Structural)]
pub enum SocketAddr {
    V4(SocketAddrV4),
    V6(SocketAddrV6),
}

/// What a guest is about to do with a socket address.
#[derive(Clone, Copy, Debug, PartialEq, Eq, Structural)]
pub enum SocketAddrUse {
    TcpBind,
    TcpConnect,
    UdpBind,
    UdpConnect,
    UdpOutgoingDatagram,
    NameLookup,
}

impl SocketAddrUse {
    /// Whether this use binds a local address.
    pub open spec fn is_bind(self) -> bool {
        self == SocketAddrUse::TcpBind || self == SocketAddrUse::UdpBind
    }
}

/// The policy: a bind is allowed on the granted IPv4 address and nowhere
/// else, whatever the port; every other use is allowed.
pub open spec fn egress_allowed(
    tap_ip: Ipv4Addr,
    socket: SocketAddr,
    purpose: SocketAddrUse,
) -> bool {
    purpose.is_bind() ==> (socket matches SocketAddr::V4(v4) && v4.ip == tap_ip)
}

/// The egress check of one sandbox: the policy with the granted address
/// fixed.
#[derive(Clone, Copy, Debug, PartialEq, Eq, Structural)]
pub struct EgressPolicy {
    pub tap_ip: Ipv4Addr,
}

impl EgressPolicy {
    /// Decides whether the guest may use `socket` for `purpose`.
    pub fn check(&self, socket: SocketAddr, purpose: SocketAddrUse) -> (allowed: bool)
        ensures
            allowed == egress_allowed(self.tap_ip, socket, purpose),
    {
        match purpose {
            SocketAddrUse::TcpBind | SocketAddrUse::UdpBind => match socket {
                SocketAddr::V4(v4) => v4.ip == self.tap_ip,
                SocketAddr::V6(_) => false,
            },
            _ => true,
        }
    }
}

} // verus!
