//! Remote endpoints: a transport protocol together with a socket address.

use vstd::prelude::*;

verus! {

/// First address of the link-local block `fe80::/10`.
pub const LINK_LOCAL_FIRST: u128 = 0xfe80_0000_0000_0000_0000_0000_0000_0000;

/// Last address of the link-local block `fe80::/10`.
pub const LINK_LOCAL_LAST: u128 = 0xfebf_ffff_ffff_ffff_ffff_ffff_ffff_ffff;

/// Whether an IPv6 address, given as its 128 bits in network order, lies in
/// the link-local block `fe80::/10`: its first ten bits are `1111 1110 10`.
pub open spec fn is_link_local(ip: u128) -> bool {
    LINK_LOCAL_FIRST <= ip <= LINK_LOCAL_LAST
}

/// Wire protocol used to talk to a remote.
#[derive(Clone, Copy, Debug, PartialEq, Eq, Hash, Structural)]
pub enum Protocol {
    /// Plain stream transport.
    Tcp,
    /// Multiplexed secure transport.
    Quic,
}

/// An IP socket address.
///
/// Addresses are held as integers in network order: `192.0.2.1` is
/// `0xc000_0201`, and `fe80::1` is `0xfe80 << 112 | 1`.
#[derive(Clone, Copy, Debug, PartialEq, Eq, Hash, Structural)]
#[allow(inconsistent_fields)]
pub enum SocketAddress {
    V4 { ip: u32, port: u16 },
    V6 { ip: u128, port: u16, flowinfo: u32, scope_id: u32 },
}

impl SocketAddress {
    /// The port of the address.
    pub open spec fn spec_port(&self) -> u16 {
        match *self {
            SocketAddress::V4 { port, .. } => port,
            SocketAddress::V6 { port, .. } => port,
        }
    }

    /// The address with its port replaced; everything else, the scope of an
    /// IPv6 address included, is kept.
    pub open spec fn with_port(self, new_port: u16) -> SocketAddress {
        match self {
            SocketAddress::V4 { ip, .. } => SocketAddress::V4 { ip, port: new_port },
            SocketAddress::V6 { ip, flowinfo, scope_id, .. } => SocketAddress::V6 {
                ip,
                port: new_port,
                flowinfo,
                scope_id,
            },
        }
    }

    /// Whether this is an IPv6 address in the link-local block.
    pub open spec fn spec_is_ipv6_link_local(&self) -> bool {
        match *self {
            SocketAddress::V4 { .. } => false,
            SocketAddress::V6 { ip, .. } => is_link_local(ip),
        }
    }

    #[verifier::when_used_as_spec(spec_port)]
    pub fn port(&self) -> (p: u16)
        ensures
            p == self.spec_port(),
    {
        match self {
            SocketAddress::V4 { port, .. } => *port,
            SocketAddress::V6 { port, .. } => *port,
        }
    }

    /// Overrides the port in place.
    pub fn set_port(&mut self, new_port: u16)
        ensures
            *final(self) == old(self).with_port(new_port),
    {
        match self {
            SocketAddress::V4 { port, .. } => {
                *port = new_port;
            },
            SocketAddress::V6 { port, .. } => {
                *port = new_port;
            },
        }
    }

    pub fn is_ipv6(&self) -> (b: bool)
        ensures
            b == (self is V6),
    {
        match self {
            SocketAddress::V4 { .. } => false,
            SocketAddress::V6 { .. } => true,
        }
    }

    #[verifier::when_used_as_spec(spec_is_ipv6_link_local)]
    pub fn is_ipv6_link_local(&self) -> (b: bool)
        ensures
            b == self.spec_is_ipv6_link_local(),
    {
        match self {
            SocketAddress::V4 { .. } => false,
            SocketAddress::V6 { ip, .. } => LINK_LOCAL_FIRST <= *ip && *ip <= LINK_LOCAL_LAST,
        }
    }
}

/// A remote a connection can be made to. Two endpoints are the same remote
/// exactly when protocol and address agree, port and scope included.
#[derive(Clone, Copy, Debug, PartialEq, Eq, Hash, Structural)]
pub struct Endpoint {
    pub proto: Protocol,
    pub socket_addr: SocketAddress,
}

impl Endpoint {
    pub open spec fn spec_proto(&self) -> Protocol {
        self.proto
    }

    pub open spec fn spec_address(&self) -> SocketAddress {
        self.socket_addr
    }

    pub fn new(proto: Protocol, socket_addr: SocketAddress) -> (e: Endpoint)
        ensures
            e == (Endpoint { proto, socket_addr }),
    {
        Endpoint { proto, socket_addr }
    }

    #[verifier::when_used_as_spec(spec_proto)]
    pub fn proto(&self) -> (p: Protocol)
        ensures
            p == self.spec_proto(),
    {
        self.proto
    }

    #[verifier::when_used_as_spec(spec_address)]
    pub fn address(&self) -> (a: SocketAddress)
        ensures
            a == self.spec_address(),
    {
        self.socket_addr
    }
}

} // verus!
