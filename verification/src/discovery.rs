//! The link-local discovery beacon: its wire format and the checks made on a
//! received datagram.

use vstd::prelude::*;
use crate::endpoint::{Endpoint, Protocol, SocketAddress};
use crate::interfaces::InterfaceError;
use crate::router_id::RouterId;

verus! {

/// Magic bytes that open every discovery beacon: the ASCII text `mycelium`.
pub const MYCELIUM_MULTICAST_DISCOVERY_MAGIC: [u8; 8] = [
    0x6d,
    0x79,
    0x63,
    0x65,
    0x6c,
    0x69,
    0x75,
    0x6d,
];

/// Size of a discovery beacon: magic, port, node identifier.
pub const PEER_DISCOVERY_BEACON_SIZE: usize = 8 + 2 + 40;

/// Size of the buffer a datagram is received into: one byte more than a
/// beacon, so that a datagram that is too long is seen to be too long.
pub const DISCOVERY_RECEIVE_BUFFER_SIZE: usize = PEER_DISCOVERY_BEACON_SIZE + 1;

/// Link-local multicast group joined for discovery, `ff02::cafe`.
pub const LL_PEER_DISCOVERY_GROUP: u128 = 0xff02_0000_0000_0000_0000_0000_0000_cafe;

/// Seconds between two beacons sent by a node.
pub const LL_PEER_DISCOVERY_BEACON_INTERVAL: u64 = 60;

/// The magic bytes as a sequence.
pub open spec fn discovery_magic() -> Seq<u8> {
    seq![0x6du8, 0x79u8, 0x63u8, 0x65u8, 0x6cu8, 0x69u8, 0x75u8, 0x6du8]
}

/// The two bytes of a port in network order.
pub open spec fn port_bytes(port: u16) -> Seq<u8> {
    seq![(port / 256) as u8, (port % 256) as u8]
}

/// The port that two bytes in network order stand for.
pub open spec fn port_of(high: u8, low: u8) -> u16 {
    (high * 256 + low) as u16
}

/// The datagram that announces `port` for the node `id`.
pub open spec fn beacon_bytes(port: u16, id: Seq<u8>) -> Seq<u8> {
    discovery_magic() + port_bytes(port) + id
}

/// Why a datagram is not a beacon.
#[derive(Clone, Copy, Debug, PartialEq, Eq, Structural)]
pub enum BeaconError {
    /// The datagram is not exactly `PEER_DISCOVERY_BEACON_SIZE` bytes long.
    InvalidSize,
    /// The datagram does not start with the magic bytes.
    InvalidMagic,
}

/// What a beacon announces.
#[derive(Clone, Copy, Debug)]
pub struct Beacon {
    /// Port on which the sender accepts stream connections.
    pub port: u16,
    /// Identifier of the sender.
    pub router_id: RouterId,
}

/// What a datagram announces, as port and identifier bytes, or why it is no
/// beacon. The size is checked before the magic.
pub open spec fn spec_parse_beacon(packet: Seq<u8>) -> Result<(u16, Seq<u8>), BeaconError> {
    if packet.len() != PEER_DISCOVERY_BEACON_SIZE {
        Err(BeaconError::InvalidSize)
    } else if packet.subrange(0, 8) != discovery_magic() {
        Err(BeaconError::InvalidMagic)
    } else {
        Ok((port_of(packet[8], packet[9]), packet.subrange(10, 50)))
    }
}

impl Beacon {
    /// Port and identifier bytes of the beacon.
    pub open spec fn parts(self) -> (u16, Seq<u8>) {
        (self.port, self.router_id@)
    }

    /// Writes the beacon as the datagram that is sent to the group.
    pub fn encode(&self) -> (datagram: [u8; 50])
        ensures
            datagram@ == beacon_bytes(self.port, self.router_id@),
    {
        let id = self.router_id.as_bytes();
        let mut datagram = [0u8; 50];
        let mut i: usize = 0;
        while i < 8
            invariant
                i <= 8,
                forall|j: int| 0 <= j < i ==> datagram@[j] == discovery_magic()[j],
            decreases 8 - i,
        {
            datagram[i] = MYCELIUM_MULTICAST_DISCOVERY_MAGIC[i];
            i += 1;
        }
        datagram[8] = (self.port / 256) as u8;
        datagram[9] = (self.port % 256) as u8;
        let mut k: usize = 0;
        while k < 40
            invariant
                k <= 40,
                id@ == self.router_id@,
                forall|j: int| 0 <= j < 8 ==> datagram@[j] == discovery_magic()[j],
                datagram@[8] == port_bytes(self.port)[0],
                datagram@[9] == port_bytes(self.port)[1],
                forall|j: int| 0 <= j < k ==> datagram@[10 + j] == id@[j],
            decreases 40 - k,
        {
            datagram[10 + k] = id[k];
            k += 1;
        }
        assert(datagram@ =~= beacon_bytes(self.port, self.router_id@));
        datagram
    }
}

/// Reads a datagram as a beacon.
pub fn parse_beacon(packet: &[u8]) -> (parsed: Result<Beacon, BeaconError>)
    ensures
        match parsed {
            Ok(beacon) => spec_parse_beacon(packet@) == Ok::<_, BeaconError>(beacon.parts()),
            Err(e) => spec_parse_beacon(packet@) == Err::<(u16, Seq<u8>), _>(e),
        },
{
    if packet.len() != PEER_DISCOVERY_BEACON_SIZE {
        return Err(BeaconError::InvalidSize);
    }
    let mut i: usize = 0;
    while i < 8
        invariant
            i <= 8,
            packet@.len() == 50,
            forall|j: int| 0 <= j < i ==> packet@[j] == discovery_magic()[j],
        decreases 8 - i,
    {
        if packet[i] != MYCELIUM_MULTICAST_DISCOVERY_MAGIC[i] {
            assert(packet@.subrange(0, 8)[i as int] != discovery_magic()[i as int]);
            return Err(BeaconError::InvalidMagic);
        }
        i += 1;
    }
    assert(packet@.subrange(0, 8) =~= discovery_magic());
    let port: u16 = (packet[8] as u16) * 256 + (packet[9] as u16);
    let mut id = [0u8; 40];
    let mut k: usize = 0;
    while k < 40
        invariant
            k <= 40,
            packet@.len() == 50,
            forall|j: int| 0 <= j < k ==> id@[j] == packet@[10 + j],
        decreases 40 - k,
    {
        id[k] = packet[10 + k];
        k += 1;
    }
    assert(id@ =~= packet@.subrange(10, 50));
    Ok(Beacon { port, router_id: RouterId::new(id) })
}

/// Why a received datagram announces no peer.
#[derive(Clone, Copy, Debug, PartialEq, Eq, Structural)]
pub enum DiscoveryRejection {
    /// The sender's address is not an IPv6 address.
    NotIpv6,
    /// The sender's address is not in the link-local block.
    NotLinkLocal,
    /// The datagram is not exactly as long as a beacon.
    InvalidSize,
    /// The datagram does not start with the magic bytes.
    InvalidMagic,
    /// The beacon carries this node's own identifier.
    OwnBeacon,
}

/// The endpoint that a datagram received from `remote` announces to the node
/// `own_id`, or why it announces none. The checks are made in this order:
/// sender address, size, magic, identifier. The endpoint is the sender's
/// address, scope included, with the announced port, over the stream
/// transport.
pub open spec fn announced_endpoint(
    packet: Seq<u8>,
    remote: SocketAddress,
    own_id: Seq<u8>,
) -> Result<Endpoint, DiscoveryRejection> {
    if !(remote is V6) {
        Err(DiscoveryRejection::NotIpv6)
    } else if !remote.spec_is_ipv6_link_local() {
        Err(DiscoveryRejection::NotLinkLocal)
    } else {
        match spec_parse_beacon(packet) {
            Err(BeaconError::InvalidSize) => Err(DiscoveryRejection::InvalidSize),
            Err(BeaconError::InvalidMagic) => Err(DiscoveryRejection::InvalidMagic),
            Ok((port, id)) => {
                if id == own_id {
                    Err(DiscoveryRejection::OwnBeacon)
                } else {
                    Ok(Endpoint { proto: Protocol::Tcp, socket_addr: remote.with_port(port) })
                }
            },
        }
    }
}

/// Validates a datagram received on the discovery socket.
pub fn check_discovery_packet(
    packet: &[u8],
    remote: SocketAddress,
    own_id: &RouterId,
) -> (checked: Result<Endpoint, DiscoveryRejection>)
    ensures
        checked == announced_endpoint(packet@, remote, own_id@),
{
    if !remote.is_ipv6() {
        return Err(DiscoveryRejection::NotIpv6);
    }
    if !remote.is_ipv6_link_local() {
        return Err(DiscoveryRejection::NotLinkLocal);
    }
    match parse_beacon(packet) {
        Err(BeaconError::InvalidSize) => Err(DiscoveryRejection::InvalidSize),
        Err(BeaconError::InvalidMagic) => Err(DiscoveryRejection::InvalidMagic),
        Ok(beacon) => {
            if beacon.router_id == *own_id {
                Err(DiscoveryRejection::OwnBeacon)
            } else {
                let mut remote = remote;
                remote.set_port(beacon.port);
                Ok(Endpoint::new(Protocol::Tcp, remote))
            }
        },
    }
}

/// A beacon that was written is read back as what it announced.
pub proof fn lemma_beacon_round_trip(port: u16, id: Seq<u8>)
    requires
        id.len() == 40,
    ensures
        spec_parse_beacon(beacon_bytes(port, id)) == Ok::<_, BeaconError>((port, id)),
{
    let b = beacon_bytes(port, id);
    assert(b.len() == 50);
    assert(b.subrange(0, 8) =~= discovery_magic());
    assert(b.subrange(10, 50) =~= id);
    assert(b[8] == (port / 256) as u8);
    assert(b[9] == (port % 256) as u8);
}

/// A beacon that comes back to the node that sent it is rejected, whatever
/// port it announces.
pub proof fn lemma_own_beacon_rejected(port: u16, own_id: Seq<u8>, remote: SocketAddress)
    requires
        own_id.len() == 40,
        remote.spec_is_ipv6_link_local(),
    ensures
        announced_endpoint(beacon_bytes(port, own_id), remote, own_id) == Err::<Endpoint, _>(
            DiscoveryRejection::OwnBeacon,
        ),
{
    lemma_beacon_round_trip(port, own_id);
}

/// A datagram of any other size than that of a beacon is rejected, whatever
/// it holds.
pub proof fn lemma_wrong_size_rejected(packet: Seq<u8>, remote: SocketAddress, own_id: Seq<u8>)
    requires
        packet.len() != PEER_DISCOVERY_BEACON_SIZE,
        remote.spec_is_ipv6_link_local(),
    ensures
        announced_endpoint(packet, remote, own_id) == Err::<Endpoint, _>(
            DiscoveryRejection::InvalidSize,
        ),
{
}

/// A datagram from a sender outside the link-local block is rejected,
/// whatever it holds.
pub proof fn lemma_not_link_local_rejected(
    packet: Seq<u8>,
    remote: SocketAddress,
    own_id: Seq<u8>,
)
    requires
        !remote.spec_is_ipv6_link_local(),
    ensures
        announced_endpoint(packet, remote, own_id) == Err::<Endpoint, _>(
            if remote is V6 {
                DiscoveryRejection::NotLinkLocal
            } else {
                DiscoveryRejection::NotIpv6
            },
        ),
{
}

/// The beacon of another node, received from a link-local sender, announces
/// the sender's address with the port of the beacon: address, flow and scope
/// are those of the sender.
pub proof fn lemma_beacon_announces_sender(
    port: u16,
    id: Seq<u8>,
    remote: SocketAddress,
    own_id: Seq<u8>,
)
    requires
        id.len() == 40,
        id != own_id,
        remote.spec_is_ipv6_link_local(),
    ensures
        announced_endpoint(beacon_bytes(port, id), remote, own_id) == Ok::<_, DiscoveryRejection>(
            Endpoint {
                proto: Protocol::Tcp,
                socket_addr: SocketAddress::V6 {
                    ip: remote->V6_ip,
                    port,
                    flowinfo: remote->flowinfo,
                    scope_id: remote->scope_id,
                },
            },
        ),
{
    lemma_beacon_round_trip(port, id);
}

/// Why link-local discovery does not run.
#[derive(Clone, Copy, Debug, PartialEq, Eq, Structural)]
pub enum DiscoveryDisabled {
    /// The network interfaces could not be listed.
    InterfaceListingFailed,
    /// No network interface has a link-local IPv6 address.
    NoLinkLocalInterface,
    /// The discovery group could not be joined on any interface.
    NoGroupJoined,
}

/// Decides on which interfaces the discovery group is joined, given the
/// interfaces with a link-local IPv6 address or the failure to list them.
pub fn interfaces_to_join(
    listed: Result<Vec<u32>, InterfaceError>,
) -> (to_join: Result<Vec<u32>, DiscoveryDisabled>)
    ensures
        match listed {
            Ok(ids) => if ids@.len() > 0 {
                to_join == Ok::<_, DiscoveryDisabled>(ids)
            } else {
                to_join == Err::<Vec<u32>, _>(DiscoveryDisabled::NoLinkLocalInterface)
            },
            Err(_) => to_join == Err::<Vec<u32>, _>(DiscoveryDisabled::InterfaceListingFailed),
        },
{
    match listed {
        Ok(ids) => {
            if ids.len() > 0 {
                Ok(ids)
            } else {
                Err(DiscoveryDisabled::NoLinkLocalInterface)
            }
        },
        Err(_) => Err(DiscoveryDisabled::InterfaceListingFailed),
    }
}

/// How many of the attempts to join the group succeeded.
pub open spec fn count_joined(joined: Seq<bool>) -> nat
    decreases joined.len(),
{
    if joined.len() == 0 {
        0
    } else if joined.last() {
        count_joined(joined.drop_last()) + 1
    } else {
        count_joined(joined.drop_last())
    }
}

/// Decides whether discovery runs, given for each interface whether the
/// group was joined on it: it runs if the group was joined at least once,
/// and the number of groups joined is returned.
pub fn groups_joined(joined: &Vec<bool>) -> (groups: Result<usize, DiscoveryDisabled>)
    ensures
        match groups {
            Ok(n) => n == count_joined(joined@) && n > 0,
            Err(e) => e == DiscoveryDisabled::NoGroupJoined && count_joined(joined@) == 0,
        },
{
    let mut groups_joined: usize = 0;
    let mut i: usize = 0;
    while i < joined.len()
        invariant
            i <= joined.len(),
            groups_joined == count_joined(joined@.subrange(0, i as int)),
            groups_joined <= i,
        decreases joined.len() - i,
    {
        assert(joined@.subrange(0, i + 1).drop_last() == joined@.subrange(0, i as int));
        if joined[i] {
            groups_joined += 1;
        }
        i += 1;
    }
    assert(joined@.subrange(0, i as int) == joined@);
    if groups_joined == 0 {
        Err(DiscoveryDisabled::NoGroupJoined)
    } else {
        Ok(groups_joined)
    }
}

} // verus!
