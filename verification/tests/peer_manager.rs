use mycelium::endpoint::{Endpoint, Protocol, SocketAddress};
use mycelium::peer::PeerRef;
use mycelium::peer_manager::{
    ConnectionOutcome, PeerInfo, PeerManager, PeerType, RegistryChange, RouterCall,
    MAX_FAILED_LOCAL_PEER_CONNECTION_ATTEMPTS, PEER_CONNECT_INTERVAL,
};
use mycelium::router_id::RouterId;

fn tcp(last: u32, port: u16) -> Endpoint {
    Endpoint::new(Protocol::Tcp, SocketAddress::V4 { ip: 0xc000_0200 + last, port })
}

fn quic(last: u32, port: u16) -> Endpoint {
    Endpoint::new(Protocol::Quic, SocketAddress::V4 { ip: 0xc000_0200 + last, port })
}

fn manager(static_peers: Vec<Endpoint>) -> PeerManager {
    PeerManager::new(RouterId::new([9; 40]), static_peers, 9651, 9652, 9650, true)
}

fn sorted(mut endpoints: Vec<Endpoint>) -> Vec<String> {
    let mut shown: Vec<String> = endpoints.drain(..).map(|e| format!("{:?}", e)).collect();
    shown.sort();
    shown
}

#[test]
fn constants_of_the_peer_manager() {
    assert_eq!(PEER_CONNECT_INTERVAL, 5);
    assert_eq!(MAX_FAILED_LOCAL_PEER_CONNECTION_ATTEMPTS, 3);
}

#[test]
fn static_peers_start_unconnected() {
    let m = manager(vec![tcp(1, 9651), quic(2, 9651)]);
    assert_eq!(m.known_peers(), 2);
    for endpoint in [tcp(1, 9651), quic(2, 9651)] {
        assert_eq!(
            m.peer_info(&endpoint),
            Some(PeerInfo {
                pt: PeerType::Static,
                connecting: false,
                pr: PeerRef::new(),
                connection_attempts: 0,
            })
        );
    }
    assert_eq!(m.peer_info(&tcp(3, 9651)), None);
}

#[test]
fn settings_are_kept() {
    let m = PeerManager::new(RouterId::new([9; 40]), vec![], 1, 2, 3, false);
    let settings = m.settings();
    assert!(settings.router_id == RouterId::new([9; 40]));
    assert_eq!(settings.tcp_listen_port, 1);
    assert_eq!(settings.quic_listen_port, 2);
    assert_eq!(settings.peer_discovery_port, 3);
    assert!(!settings.discovery_enabled);
}

#[test]
fn an_endpoint_has_one_entry() {
    let mut m = manager(vec![tcp(1, 9651), tcp(1, 9651), tcp(2, 9651), tcp(1, 9651)]);
    assert_eq!(m.known_peers(), 2);
    m.add_peer(tcp(1, 9651), PeerType::LinkLocalDiscovery, None, &vec![]);
    m.add_peer(tcp(1, 9651), PeerType::Inbound, Some(4), &vec![]);
    m.add_peer(tcp(2, 9651), PeerType::Static, None, &vec![]);
    assert_eq!(m.known_peers(), 2);
    let endpoints = m.endpoints();
    assert_eq!(sorted(endpoints), sorted(vec![tcp(1, 9651), tcp(2, 9651)]));
}

#[test]
fn protocol_and_port_tell_endpoints_apart() {
    let m = manager(vec![tcp(1, 9651), quic(1, 9651), tcp(1, 9652)]);
    assert_eq!(m.known_peers(), 3);
}

#[test]
fn unknown_peer_is_added() {
    let mut m = manager(vec![]);
    let update = m.add_peer(tcp(1, 9651), PeerType::LinkLocalDiscovery, None, &vec![]);
    assert_eq!(update.change, RegistryChange::Added);
    assert_eq!(update.router_calls, vec![]);
    let update = m.add_peer(tcp(2, 9651), PeerType::Inbound, Some(17), &vec![]);
    assert_eq!(update.change, RegistryChange::Added);
    assert_eq!(update.router_calls, vec![RouterCall::AddPeerInterface(17)]);
    assert_eq!(
        m.peer_info(&tcp(2, 9651)),
        Some(PeerInfo {
            pt: PeerType::Inbound,
            connecting: false,
            pr: PeerRef::refer(17),
            connection_attempts: 0,
        })
    );
}

#[test]
fn known_peer_is_not_announced_twice() {
    let mut m = manager(vec![tcp(1, 9651)]);
    m.check_peers(&vec![]);
    m.connection_finished(tcp(1, 9651), None);
    let before = m.peer_info(&tcp(1, 9651));
    let update = m.add_peer(tcp(1, 9651), PeerType::LinkLocalDiscovery, None, &vec![]);
    assert_eq!(update.change, RegistryChange::Unchanged);
    assert_eq!(update.router_calls, vec![]);
    let update = m.add_peer(tcp(1, 9651), PeerType::Static, Some(5), &vec![]);
    assert_eq!(update.change, RegistryChange::Unchanged);
    assert_eq!(update.router_calls, vec![]);
    assert_eq!(m.peer_info(&tcp(1, 9651)), before);
    assert_eq!(before.unwrap().connection_attempts, 1);
}

#[test]
fn inbound_replaces_and_then_reports_dead() {
    let mut m = manager(vec![]);
    let remote = SocketAddress::V4 { ip: 0xc000_0201, port: 50000 };
    m.accept_inbound(Protocol::Quic, remote, 1, &vec![]);
    let update = m.accept_inbound(Protocol::Quic, remote, 2, &vec![5, 1]);
    assert_eq!(update.change, RegistryChange::Replaced);
    assert_eq!(
        update.router_calls,
        vec![RouterCall::AddPeerInterface(2), RouterCall::HandleDeadPeer(1)]
    );
    assert_eq!(m.known_peers(), 1);
    assert_eq!(m.peer_info(&quic(1, 50000)).unwrap().pr, PeerRef::refer(2));
    assert_eq!(m.peer_info(&quic(1, 50000)).unwrap().pt, PeerType::Inbound);
}

#[test]
fn replaced_session_that_is_gone_is_not_reported() {
    let mut m = manager(vec![]);
    let remote = SocketAddress::V4 { ip: 0xc000_0201, port: 50000 };
    m.accept_inbound(Protocol::Quic, remote, 1, &vec![]);
    let update = m.accept_inbound(Protocol::Quic, remote, 2, &vec![5]);
    assert_eq!(update.change, RegistryChange::Replaced);
    assert_eq!(update.router_calls, vec![RouterCall::AddPeerInterface(2)]);
    assert_eq!(m.peer_info(&quic(1, 50000)).unwrap().pr, PeerRef::refer(2));
}

#[test]
fn inbound_replaces_entry_without_session() {
    let mut m = manager(vec![tcp(1, 9651)]);
    m.check_peers(&vec![]);
    m.connection_finished(tcp(1, 9651), None);
    let update = m.add_peer(tcp(1, 9651), PeerType::Inbound, Some(3), &vec![]);
    assert_eq!(update.change, RegistryChange::Replaced);
    assert_eq!(update.router_calls, vec![RouterCall::AddPeerInterface(3)]);
    assert_eq!(
        m.peer_info(&tcp(1, 9651)),
        Some(PeerInfo {
            pt: PeerType::Inbound,
            connecting: false,
            pr: PeerRef::refer(3),
            connection_attempts: 0,
        })
    );
}

#[test]
fn inbound_without_session_reports_live_session_dead() {
    let mut m = manager(vec![]);
    m.add_peer(tcp(1, 9651), PeerType::Inbound, Some(1), &vec![]);
    let update = m.add_peer(tcp(1, 9651), PeerType::Inbound, None, &vec![1]);
    assert_eq!(update.change, RegistryChange::Replaced);
    assert_eq!(update.router_calls, vec![RouterCall::HandleDeadPeer(1)]);
    assert_eq!(
        m.peer_info(&tcp(1, 9651)),
        Some(PeerInfo {
            pt: PeerType::Inbound,
            connecting: false,
            pr: PeerRef::new(),
            connection_attempts: 0,
        })
    );
}

#[test]
fn inbound_without_session_replaces_dead_session_silently() {
    let mut m = manager(vec![]);
    m.add_peer(tcp(1, 9651), PeerType::Inbound, Some(1), &vec![]);
    let update = m.add_peer(tcp(1, 9651), PeerType::Inbound, None, &vec![2]);
    assert_eq!(update.change, RegistryChange::Replaced);
    assert_eq!(update.router_calls, vec![]);
    assert_eq!(m.peer_info(&tcp(1, 9651)).unwrap().pr, PeerRef::new());
}

#[test]
fn known_peer_announced_again_keeps_its_live_session() {
    let mut m = manager(vec![tcp(1, 9651)]);
    m.check_peers(&vec![]);
    m.connection_finished(tcp(1, 9651), Some(6));
    let update = m.add_peer(tcp(1, 9651), PeerType::Static, Some(8), &vec![6]);
    assert_eq!(update.change, RegistryChange::Unchanged);
    assert_eq!(update.router_calls, vec![]);
    assert_eq!(m.peer_info(&tcp(1, 9651)).unwrap().pr, PeerRef::refer(6));
}

#[test]
fn dead_inbound_is_forgotten_and_live_inbound_left_alone() {
    let mut m = manager(vec![]);
    m.add_peer(tcp(1, 50001), PeerType::Inbound, Some(1), &vec![]);
    m.add_peer(tcp(2, 50002), PeerType::Inbound, Some(2), &vec![]);
    let launched = m.check_peers(&vec![2]);
    assert_eq!(launched, vec![]);
    assert_eq!(m.peer_info(&tcp(1, 50001)), None);
    assert_eq!(
        m.peer_info(&tcp(2, 50002)),
        Some(PeerInfo {
            pt: PeerType::Inbound,
            connecting: false,
            pr: PeerRef::refer(2),
            connection_attempts: 0,
        })
    );
    let launched = m.check_peers(&vec![]);
    assert_eq!(launched, vec![]);
    assert_eq!(m.known_peers(), 0);
}

#[test]
fn dead_inbound_is_never_connected_to() {
    let mut m = manager(vec![tcp(9, 9651)]);
    m.add_peer(tcp(1, 50001), PeerType::Inbound, Some(1), &vec![]);
    let launched = m.connect_dead_peers(&vec![]);
    assert_eq!(launched, vec![tcp(9, 9651)]);
    assert!(!m.peer_info(&tcp(1, 50001)).unwrap().connecting);
    m.remove_dead_inbound(&vec![]);
    assert_eq!(m.peer_info(&tcp(1, 50001)), None);
    assert!(m.peer_info(&tcp(9, 9651)).unwrap().connecting);
}

#[test]
fn remove_dead_inbound_keeps_other_peers() {
    let mut m = manager(vec![tcp(1, 9651)]);
    m.add_peer(tcp(2, 9651), PeerType::LinkLocalDiscovery, None, &vec![]);
    m.add_peer(tcp(3, 9651), PeerType::Inbound, Some(3), &vec![]);
    m.add_peer(tcp(4, 9651), PeerType::Inbound, Some(4), &vec![]);
    m.remove_dead_inbound(&vec![4, 99]);
    assert_eq!(
        sorted(m.endpoints()),
        sorted(vec![tcp(1, 9651), tcp(2, 9651), tcp(4, 9651)])
    );
}

#[test]
fn check_starts_one_attempt_per_dead_peer() {
    let mut m = manager(vec![tcp(1, 9651), quic(2, 9651)]);
    m.add_peer(tcp(3, 9651), PeerType::LinkLocalDiscovery, None, &vec![]);
    let launched = m.check_peers(&vec![]);
    assert_eq!(sorted(launched), sorted(vec![tcp(1, 9651), quic(2, 9651), tcp(3, 9651)]));
    for endpoint in [tcp(1, 9651), quic(2, 9651), tcp(3, 9651)] {
        assert!(m.peer_info(&endpoint).unwrap().connecting);
    }
    assert_eq!(m.check_peers(&vec![]), vec![]);
    assert_eq!(m.check_peers(&vec![1, 2, 3]), vec![]);
    m.connection_finished(quic(2, 9651), None);
    assert_eq!(m.check_peers(&vec![]), vec![quic(2, 9651)]);
}

#[test]
fn live_peer_is_not_connected_to() {
    let mut m = manager(vec![tcp(1, 9651)]);
    assert_eq!(m.check_peers(&vec![]), vec![tcp(1, 9651)]);
    assert_eq!(
        m.connection_finished(tcp(1, 9651), Some(7)),
        ConnectionOutcome::Connected { session: 7 }
    );
    assert_eq!(m.check_peers(&vec![3, 7]), vec![]);
    assert!(!m.peer_info(&tcp(1, 9651)).unwrap().connecting);
    assert_eq!(m.check_peers(&vec![3]), vec![tcp(1, 9651)]);
}

#[test]
fn discovered_peer_is_forgotten_after_three_failures() {
    let mut m = manager(vec![]);
    m.add_peer(tcp(1, 9651), PeerType::LinkLocalDiscovery, None, &vec![]);
    for failures in 1..=2u32 {
        assert_eq!(m.check_peers(&vec![]), vec![tcp(1, 9651)]);
        assert_eq!(
            m.connection_finished(tcp(1, 9651), None),
            ConnectionOutcome::Failed { connection_attempts: failures }
        );
        let info = m.peer_info(&tcp(1, 9651)).unwrap();
        assert_eq!(info.connection_attempts, failures);
        assert!(!info.connecting);
    }
    assert_eq!(m.check_peers(&vec![]), vec![tcp(1, 9651)]);
    assert_eq!(m.connection_finished(tcp(1, 9651), None), ConnectionOutcome::Forgotten);
    assert_eq!(m.peer_info(&tcp(1, 9651)), None);
    assert_eq!(m.known_peers(), 0);
    assert_eq!(m.check_peers(&vec![]), vec![]);
    assert_eq!(m.connection_finished(tcp(1, 9651), None), ConnectionOutcome::Ignored);
}

#[test]
fn success_starts_the_count_afresh() {
    let mut m = manager(vec![]);
    m.add_peer(tcp(1, 9651), PeerType::LinkLocalDiscovery, None, &vec![]);
    m.check_peers(&vec![]);
    m.connection_finished(tcp(1, 9651), None);
    m.check_peers(&vec![]);
    m.connection_finished(tcp(1, 9651), None);
    m.check_peers(&vec![]);
    assert_eq!(
        m.connection_finished(tcp(1, 9651), Some(5)),
        ConnectionOutcome::Connected { session: 5 }
    );
    assert_eq!(m.peer_info(&tcp(1, 9651)).unwrap().connection_attempts, 0);
    for failures in 1..=2u32 {
        m.check_peers(&vec![]);
        assert_eq!(
            m.connection_finished(tcp(1, 9651), None),
            ConnectionOutcome::Failed { connection_attempts: failures }
        );
    }
    m.check_peers(&vec![]);
    assert_eq!(m.connection_finished(tcp(1, 9651), None), ConnectionOutcome::Forgotten);
}

#[test]
fn static_peer_is_never_forgotten() {
    let mut m = manager(vec![tcp(1, 9651)]);
    for failures in 1..=10u32 {
        assert_eq!(m.check_peers(&vec![]), vec![tcp(1, 9651)]);
        assert_eq!(
            m.connection_finished(tcp(1, 9651), None),
            ConnectionOutcome::Failed { connection_attempts: failures }
        );
    }
    assert_eq!(m.peer_info(&tcp(1, 9651)).unwrap().pt, PeerType::Static);
    assert_eq!(m.peer_info(&tcp(1, 9651)).unwrap().connection_attempts, 10);
}

#[test]
fn result_for_unknown_endpoint_is_ignored() {
    let mut m = manager(vec![tcp(1, 9651)]);
    assert_eq!(m.connection_finished(tcp(2, 9651), Some(4)), ConnectionOutcome::Ignored);
    assert_eq!(m.connection_finished(tcp(2, 9651), None), ConnectionOutcome::Ignored);
    assert_eq!(m.known_peers(), 1);
    assert_eq!(m.peer_info(&tcp(2, 9651)), None);
}

#[test]
fn unreachable_static_peer_is_retried_until_it_connects() {
    let endpoint = tcp(1, 9651);
    let mut m = manager(vec![endpoint]);
    let mut router_calls = Vec::new();

    assert_eq!(m.check_peers(&vec![]), vec![endpoint]);
    assert_eq!(
        m.connection_finished(endpoint, None),
        ConnectionOutcome::Failed { connection_attempts: 1 }
    );
    let info = m.peer_info(&endpoint).unwrap();
    assert_eq!(info.connection_attempts, 1);
    assert!(!info.connecting);

    assert_eq!(m.check_peers(&vec![]), vec![endpoint]);
    if let ConnectionOutcome::Connected { session } = m.connection_finished(endpoint, Some(42)) {
        router_calls.push(RouterCall::AddPeerInterface(session));
    }
    let info = m.peer_info(&endpoint).unwrap();
    assert_eq!(info.connection_attempts, 0);
    assert!(!info.connecting);
    assert_eq!(info.pr, PeerRef::refer(42));

    assert_eq!(m.check_peers(&vec![42]), vec![]);
    assert_eq!(router_calls, vec![RouterCall::AddPeerInterface(42)]);
}
