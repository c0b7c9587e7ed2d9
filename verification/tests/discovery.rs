use mycelium::discovery::{
    check_discovery_packet, groups_joined, interfaces_to_join, parse_beacon, Beacon, BeaconError,
    DiscoveryDisabled, DiscoveryRejection, LL_PEER_DISCOVERY_BEACON_INTERVAL,
    LL_PEER_DISCOVERY_GROUP, MYCELIUM_MULTICAST_DISCOVERY_MAGIC, PEER_DISCOVERY_BEACON_SIZE,
};
use mycelium::endpoint::{Endpoint, Protocol, SocketAddress};
use mycelium::interfaces::InterfaceError;
use mycelium::peer_manager::{DiscoveredPeer, PeerManager, PeerType, RegistryChange};
use mycelium::router_id::RouterId;

const FE80_1: u128 = 0xfe80_0000_0000_0000_0000_0000_0000_0001;

fn own_id() -> RouterId {
    RouterId::new([0x11; 40])
}

fn other_id() -> RouterId {
    let mut bytes = [0x22; 40];
    bytes[39] = 0x23;
    RouterId::new(bytes)
}

fn link_local_sender(scope_id: u32) -> SocketAddress {
    SocketAddress::V6 { ip: FE80_1, port: 40000, flowinfo: 0, scope_id }
}

fn beacon(port: u16, id: RouterId) -> Vec<u8> {
    Beacon { port, router_id: id }.encode().to_vec()
}

#[test]
fn constants_have_their_documented_values() {
    assert_eq!(&MYCELIUM_MULTICAST_DISCOVERY_MAGIC, b"mycelium");
    assert_eq!(PEER_DISCOVERY_BEACON_SIZE, 50);
    assert_eq!(LL_PEER_DISCOVERY_GROUP, 0xff02_0000_0000_0000_0000_0000_0000_cafe);
    assert_eq!(LL_PEER_DISCOVERY_BEACON_INTERVAL, 60);
}

#[test]
fn beacon_is_magic_port_and_identifier() {
    let datagram = Beacon { port: 0x270f, router_id: other_id() }.encode();
    assert_eq!(datagram.len(), 50);
    assert_eq!(&datagram[..8], b"mycelium");
    assert_eq!(&datagram[8..10], &[0x27, 0x0f]);
    assert_eq!(&datagram[10..50], &other_id().as_bytes()[..]);
}

#[test]
fn beacon_port_is_big_endian() {
    let datagram = Beacon { port: 1, router_id: own_id() }.encode();
    assert_eq!(&datagram[8..10], &[0, 1]);
    let datagram = Beacon { port: 0xff00, router_id: own_id() }.encode();
    assert_eq!(&datagram[8..10], &[0xff, 0]);
}

#[test]
fn parsed_beacon_is_what_was_encoded() {
    for port in [0u16, 1, 255, 256, 9651, 65535] {
        let parsed = parse_beacon(&beacon(port, other_id())).unwrap();
        assert_eq!(parsed.port, port);
        assert!(parsed.router_id == other_id());
        assert_eq!(parsed.router_id.as_bytes(), other_id().as_bytes());
    }
}

#[test]
fn parse_rejects_wrong_size_before_magic() {
    assert_eq!(parse_beacon(&[]).unwrap_err(), BeaconError::InvalidSize);
    assert_eq!(parse_beacon(&[0u8; 49]).unwrap_err(), BeaconError::InvalidSize);
    assert_eq!(parse_beacon(&[0u8; 51]).unwrap_err(), BeaconError::InvalidSize);
    assert_eq!(parse_beacon(&[0u8; 50]).unwrap_err(), BeaconError::InvalidMagic);
}

#[test]
fn parse_rejects_each_wrong_magic_byte() {
    for i in 0..8 {
        let mut datagram = beacon(9651, other_id());
        datagram[i] ^= 0x01;
        assert_eq!(parse_beacon(&datagram).unwrap_err(), BeaconError::InvalidMagic);
    }
}

#[test]
fn own_beacon_is_rejected() {
    let datagram = beacon(9651, own_id());
    assert_eq!(datagram.len(), 50);
    assert_eq!(
        check_discovery_packet(&datagram, link_local_sender(2), &own_id()),
        Err(DiscoveryRejection::OwnBeacon)
    );
}

#[test]
fn beacon_of_49_or_51_bytes_is_rejected() {
    let mut short = beacon(9651, other_id());
    short.pop();
    assert_eq!(short.len(), 49);
    assert_eq!(
        check_discovery_packet(&short, link_local_sender(2), &own_id()),
        Err(DiscoveryRejection::InvalidSize)
    );
    let mut long = beacon(9651, other_id());
    long.push(0);
    assert_eq!(long.len(), 51);
    assert_eq!(
        check_discovery_packet(&long, link_local_sender(2), &own_id()),
        Err(DiscoveryRejection::InvalidSize)
    );
}

#[test]
fn beacon_from_global_unicast_sender_is_rejected() {
    let sender = SocketAddress::V6 {
        ip: 0x2001_0db8_0000_0000_0000_0000_0000_0001,
        port: 40000,
        flowinfo: 0,
        scope_id: 0,
    };
    assert_eq!(
        check_discovery_packet(&beacon(9651, other_id()), sender, &own_id()),
        Err(DiscoveryRejection::NotLinkLocal)
    );
}

#[test]
fn beacon_from_anywhere_in_the_link_local_block_is_taken() {
    let mut manager = PeerManager::new(own_id(), vec![], 9651, 9651, 9650, true);
    let ip = 0xfe80_0000_0000_0001_0000_0000_0000_0001;
    let sender = SocketAddress::V6 { ip, port: 5000, flowinfo: 0, scope_id: 2 };
    let expected =
        Endpoint::new(Protocol::Tcp, SocketAddress::V6 { ip, port: 9999, flowinfo: 0, scope_id: 2 });
    let mut datagram = b"mycelium".to_vec();
    datagram.extend_from_slice(&[0x27, 0x0f]);
    datagram.extend_from_slice(&[0xaa; 40]);
    assert_eq!(
        manager.handle_discovery_packet(&datagram, sender),
        Ok(DiscoveredPeer { endpoint: expected, change: RegistryChange::Added })
    );
    assert_eq!(manager.peer_info(&expected).unwrap().pt, PeerType::LinkLocalDiscovery);
}

#[test]
fn link_local_block_is_the_first_ten_bits() {
    let datagram = beacon(9651, other_id());
    let at = |ip: u128| SocketAddress::V6 { ip, port: 1, flowinfo: 0, scope_id: 1 };
    let first = 0xfe80_0000_0000_0000_0000_0000_0000_0000;
    let last = 0xfebf_ffff_ffff_ffff_ffff_ffff_ffff_ffff;
    assert!(check_discovery_packet(&datagram, at(first), &own_id()).is_ok());
    assert!(check_discovery_packet(&datagram, at(last), &own_id()).is_ok());
    assert_eq!(
        check_discovery_packet(&datagram, at(first - 1), &own_id()),
        Err(DiscoveryRejection::NotLinkLocal)
    );
    assert_eq!(
        check_discovery_packet(&datagram, at(last + 1), &own_id()),
        Err(DiscoveryRejection::NotLinkLocal)
    );
}

#[test]
fn beacon_from_ipv4_sender_is_rejected() {
    let sender = SocketAddress::V4 { ip: 0xc0a8_0001, port: 40000 };
    assert_eq!(
        check_discovery_packet(&beacon(9651, other_id()), sender, &own_id()),
        Err(DiscoveryRejection::NotIpv6)
    );
}

#[test]
fn sender_is_checked_before_the_datagram() {
    let sender = SocketAddress::V4 { ip: 0xc0a8_0001, port: 40000 };
    assert_eq!(
        check_discovery_packet(&[0u8; 3], sender, &own_id()),
        Err(DiscoveryRejection::NotIpv6)
    );
    let mut bad_magic = beacon(9651, own_id());
    bad_magic[0] = 0;
    assert_eq!(
        check_discovery_packet(&bad_magic, link_local_sender(2), &own_id()),
        Err(DiscoveryRejection::InvalidMagic)
    );
}

#[test]
fn valid_beacon_registers_discovered_peer() {
    let mut manager = PeerManager::new(own_id(), vec![], 9651, 9651, 9650, true);
    let handled = manager.handle_discovery_packet(&beacon(9999, other_id()), link_local_sender(2));
    let expected = Endpoint::new(
        Protocol::Tcp,
        SocketAddress::V6 { ip: FE80_1, port: 9999, flowinfo: 0, scope_id: 2 },
    );
    assert_eq!(handled, Ok(DiscoveredPeer { endpoint: expected, change: RegistryChange::Added }));
    assert_eq!(manager.known_peers(), 1);
    let info = manager.peer_info(&expected).unwrap();
    assert_eq!(info.pt, PeerType::LinkLocalDiscovery);
    assert!(!info.connecting);
    assert_eq!(info.pr.session, None);
    assert_eq!(info.connection_attempts, 0);
}

#[test]
fn rejected_datagram_changes_nothing() {
    let mut manager = PeerManager::new(own_id(), vec![], 9651, 9651, 9650, true);
    assert_eq!(
        manager.handle_discovery_packet(&beacon(9999, own_id()), link_local_sender(2)),
        Err(DiscoveryRejection::OwnBeacon)
    );
    assert_eq!(
        manager.handle_discovery_packet(&[1, 2, 3], link_local_sender(2)),
        Err(DiscoveryRejection::InvalidSize)
    );
    assert_eq!(manager.known_peers(), 0);
}

#[test]
fn scope_tells_discovered_peers_apart() {
    let mut manager = PeerManager::new(own_id(), vec![], 9651, 9651, 9650, true);
    let datagram = beacon(9999, other_id());
    let first = manager.handle_discovery_packet(&datagram, link_local_sender(2)).unwrap();
    let other = manager.handle_discovery_packet(&datagram, link_local_sender(3)).unwrap();
    let again = manager.handle_discovery_packet(&datagram, link_local_sender(2)).unwrap();
    assert_eq!(first.change, RegistryChange::Added);
    assert_eq!(other.change, RegistryChange::Added);
    assert_eq!(again.change, RegistryChange::Unchanged);
    assert_eq!(again.endpoint, first.endpoint);
    assert_ne!(other.endpoint, first.endpoint);
    assert_eq!(manager.known_peers(), 2);
}

#[test]
fn manager_sends_its_port_and_identifier() {
    let manager = PeerManager::new(own_id(), vec![], 0x1234, 9651, 9650, true);
    let datagram = manager.discovery_beacon();
    let parsed = parse_beacon(&datagram).unwrap();
    assert_eq!(parsed.port, 0x1234);
    assert!(parsed.router_id == own_id());
    assert_eq!(
        manager.discovery_destination(),
        SocketAddress::V6 { ip: LL_PEER_DISCOVERY_GROUP, port: 9650, flowinfo: 0, scope_id: 0 }
    );
}

#[test]
fn interfaces_to_join_needs_a_link_local_interface() {
    assert_eq!(interfaces_to_join(Ok(vec![2, 3])), Ok(vec![2, 3]));
    assert_eq!(interfaces_to_join(Ok(vec![])), Err(DiscoveryDisabled::NoLinkLocalInterface));
    assert_eq!(
        interfaces_to_join(Err(InterfaceError::ListingFailed)),
        Err(DiscoveryDisabled::InterfaceListingFailed)
    );
}

#[test]
fn discovery_needs_one_joined_group() {
    assert_eq!(groups_joined(&vec![]), Err(DiscoveryDisabled::NoGroupJoined));
    assert_eq!(groups_joined(&vec![false, false]), Err(DiscoveryDisabled::NoGroupJoined));
    assert_eq!(groups_joined(&vec![false, true]), Ok(1));
    assert_eq!(groups_joined(&vec![true, false, true, true]), Ok(3));
}
