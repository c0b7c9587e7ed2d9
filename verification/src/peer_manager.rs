//! The peer manager: the registry of known remotes and the decisions made on
//! it when peers are announced, connections finish, and the periodic check
//! for dead peers runs.

use vstd::prelude::*;
use crate::discovery::{
    announced_endpoint, beacon_bytes, check_discovery_packet, Beacon, DiscoveryRejection,
    LL_PEER_DISCOVERY_GROUP,
};
use crate::endpoint::{Endpoint, Protocol, SocketAddress};
use crate::peer::PeerRef;
use crate::registry::Registry;
use crate::router_id::RouterId;

verus! {

/// Seconds between two checks of the known peers' liveness.
pub const PEER_CONNECT_INTERVAL: u64 = 5;

/// Number of successive failed connection attempts after which a peer found
/// through link-local discovery is forgotten.
pub const MAX_FAILED_LOCAL_PEER_CONNECTION_ATTEMPTS: u32 = 3;

/// How the peer manager learned about a remote.
#[derive(Clone, Copy, Debug, PartialEq, Eq, Structural)]
pub enum PeerType {
    /// Statically configured peer.
    Static,
    /// Peer found through link-local discovery.
    LinkLocalDiscovery,
    /// A remote which initiated a connection to us.
    Inbound,
}

/// What the peer manager keeps about a known remote.
#[derive(Clone, Copy, Debug, PartialEq, Eq)]
pub struct PeerInfo {
    /// How the remote was learned about.
    pub pt: PeerType,
    /// Whether a connection attempt to the remote is in flight.
    pub connecting: bool,
    /// Reference to the remote's session, used to check liveness.
    pub pr: PeerRef,
    /// Failed connection attempts since the last successful one.
    pub connection_attempts: u32,
}

/// Something the router has to be told about a session.
#[derive(Clone, Copy, Debug, PartialEq, Eq, Structural)]
pub enum RouterCall {
    /// Hand the new session over to the router.
    AddPeerInterface(u64),
    /// Tell the router that the session, which was alive when its entry was
    /// replaced, is dead.
    HandleDeadPeer(u64),
}

/// What announcing a peer did to the registry.
#[derive(Clone, Copy, Debug, PartialEq, Eq, Structural)]
pub enum RegistryChange {
    /// The endpoint was not known and has an entry now.
    Added,
    /// The endpoint was known and its entry was replaced.
    Replaced,
    /// The endpoint was known and its entry was left as it was.
    Unchanged,
}

/// The result of announcing a peer.
#[derive(Debug)]
pub struct PeerUpdate {
    /// What happened to the registry.
    pub change: RegistryChange,
    /// What to tell the router, in this order.
    pub router_calls: Vec<RouterCall>,
}

/// A peer that a discovery beacon announced.
#[derive(Clone, Copy, Debug, PartialEq, Eq, Structural)]
pub struct DiscoveredPeer {
    /// Where the peer can be connected to.
    pub endpoint: Endpoint,
    /// What the announcement did to the registry: the peer was added, or it
    /// was known already.
    pub change: RegistryChange,
}

/// How a finished connection attempt was dealt with.
#[derive(Clone, Copy, Debug, PartialEq, Eq, Structural)]
pub enum ConnectionOutcome {
    /// The endpoint is not known any more. Whatever the attempt produced is
    /// dropped.
    Ignored,
    /// The attempt produced a session, which is now handed to the router.
    Connected { session: u64 },
    /// The attempt failed; the peer has now failed this many times in a row
    /// and stays known.
    Failed { connection_attempts: u32 },
    /// The attempt failed and the peer, found through discovery, was
    /// forgotten.
    Forgotten,
}

/// What a peer manager is set up with.
#[derive(Clone, Copy, Debug)]
pub struct Settings {
    /// Identifier of this node.
    pub router_id: RouterId,
    /// Port on which stream connections are accepted.
    pub tcp_listen_port: u16,
    /// Port on which secure connections are accepted.
    pub quic_listen_port: u16,
    /// Port on which discovery beacons are sent and received.
    pub peer_discovery_port: u16,
    /// Whether link-local discovery runs.
    pub discovery_enabled: bool,
}

/// The entry of a peer that was just announced: no attempt under way, none
/// failed, and a reference to the session it came with, if any.
pub open spec fn fresh_peer(pt: PeerType, peer: Option<u64>) -> PeerInfo {
    PeerInfo { pt, connecting: false, pr: PeerRef { session: peer }, connection_attempts: 0 }
}

/// Every peer found through discovery has failed fewer times in a row than
/// it takes to be forgotten.
pub open spec fn within_retry_budget(peers: Map<Endpoint, PeerInfo>) -> bool {
    forall|e: Endpoint|
        peers.contains_key(e) && (#[trigger] peers[e]).pt == PeerType::LinkLocalDiscovery
            ==> peers[e].connection_attempts < MAX_FAILED_LOCAL_PEER_CONNECTION_ATTEMPTS
}

/// The registry a peer manager starts with: every configured endpoint as a
/// static peer.
pub open spec fn static_registry(endpoints: Seq<Endpoint>) -> Map<Endpoint, PeerInfo> {
    Map::new(|e: Endpoint| endpoints.contains(e), |e: Endpoint| fresh_peer(PeerType::Static, None))
}

/// The registry after a peer was announced. An unknown endpoint gets a fresh
/// entry; a known one keeps its entry unless the announcement is an inbound
/// connection, which replaces it.
pub open spec fn registry_after_add(
    peers: Map<Endpoint, PeerInfo>,
    endpoint: Endpoint,
    pt: PeerType,
    peer: Option<u64>,
) -> Map<Endpoint, PeerInfo> {
    if !peers.contains_key(endpoint) || pt == PeerType::Inbound {
        peers.insert(endpoint, fresh_peer(pt, peer))
    } else {
        peers
    }
}

/// What announcing a peer does to the registry.
pub open spec fn change_of_add(
    peers: Map<Endpoint, PeerInfo>,
    endpoint: Endpoint,
    pt: PeerType,
) -> RegistryChange {
    if !peers.contains_key(endpoint) {
        RegistryChange::Added
    } else if pt == PeerType::Inbound {
        RegistryChange::Replaced
    } else {
        RegistryChange::Unchanged
    }
}

/// The handing over of the session that a peer was announced with, if it was
/// announced with one.
pub open spec fn hand_over(peer: Option<u64>) -> Seq<RouterCall> {
    match peer {
        Some(session) => seq![RouterCall::AddPeerInterface(session)],
        None => Seq::empty(),
    }
}

/// The report that the session of an entry is dead, if that session is alive.
pub open spec fn report_dead(info: PeerInfo, live: Set<u64>) -> Seq<RouterCall> {
    if info.pr.spec_alive(live) {
        seq![RouterCall::HandleDeadPeer(info.pr.session->0)]
    } else {
        Seq::empty()
    }
}

/// What the router is told when a peer is announced while the sessions in
/// `live` are alive. A session that comes with a new or replacing entry is
/// handed over; after that, the session of a replaced entry is reported dead
/// if it was alive, whether a new session came or not. Nothing is told when
/// the entry of a known endpoint is left as it was.
pub open spec fn router_calls_of_add(
    peers: Map<Endpoint, PeerInfo>,
    endpoint: Endpoint,
    pt: PeerType,
    peer: Option<u64>,
    live: Set<u64>,
) -> Seq<RouterCall> {
    if !peers.contains_key(endpoint) {
        hand_over(peer)
    } else if pt == PeerType::Inbound {
        hand_over(peer) + report_dead(peers[endpoint], live)
    } else {
        Seq::empty()
    }
}

/// Whether an entry is that of an inbound peer whose session is gone.
pub open spec fn is_dead_inbound(info: PeerInfo, live: Set<u64>) -> bool {
    info.pt == PeerType::Inbound && !info.pr.spec_alive(live)
}

/// The registry without the inbound peers whose session is gone.
pub open spec fn registry_without_dead_inbound(
    peers: Map<Endpoint, PeerInfo>,
    live: Set<u64>,
) -> Map<Endpoint, PeerInfo> {
    Map::new(
        |e: Endpoint| peers.contains_key(e) && !is_dead_inbound(peers[e], live),
        |e: Endpoint| peers[e],
    )
}

/// Whether a connection attempt is to be started for an entry: none is under
/// way, its session is not alive, and the remote did not connect to us.
pub open spec fn needs_connection(info: PeerInfo, live: Set<u64>) -> bool {
    !info.connecting && !info.pr.spec_alive(live) && info.pt != PeerType::Inbound
}

/// An entry once a connection attempt for it has been started.
pub open spec fn connecting_started(info: PeerInfo) -> PeerInfo {
    PeerInfo { connecting: true, ..info }
}

/// The endpoints for which a connection attempt is to be started.
pub open spec fn endpoints_to_connect(peers: Map<Endpoint, PeerInfo>, live: Set<u64>) -> Set<
    Endpoint,
> {
    Set::new(|e: Endpoint| peers.contains_key(e) && needs_connection(peers[e], live))
}

/// The registry once the connection attempts have been started.
pub open spec fn registry_after_connecting(
    peers: Map<Endpoint, PeerInfo>,
    live: Set<u64>,
) -> Map<Endpoint, PeerInfo> {
    Map::new(
        |e: Endpoint| peers.contains_key(e),
        |e: Endpoint|
            if needs_connection(peers[e], live) {
                connecting_started(peers[e])
            } else {
                peers[e]
            },
    )
}

/// The number of failures in a row once one more is counted. The count
/// stops at the largest number it can hold.
pub open spec fn failed_once_more(connection_attempts: u32) -> u32 {
    if connection_attempts < u32::MAX {
        (connection_attempts + 1) as u32
    } else {
        connection_attempts
    }
}

/// Whether one more failure makes the peer manager forget an entry: only a
/// peer found through discovery is forgotten, once it has failed
/// `MAX_FAILED_LOCAL_PEER_CONNECTION_ATTEMPTS` times in a row.
pub open spec fn gives_up_on(info: PeerInfo) -> bool {
    info.pt == PeerType::LinkLocalDiscovery && failed_once_more(info.connection_attempts)
        >= MAX_FAILED_LOCAL_PEER_CONNECTION_ATTEMPTS
}

/// The entry of a peer once an attempt produced a session to it.
pub open spec fn connected(info: PeerInfo, session: u64) -> PeerInfo {
    PeerInfo {
        pt: info.pt,
        connecting: false,
        pr: PeerRef { session: Some(session) },
        connection_attempts: 0,
    }
}

/// The entry of a peer that stays known after a failed attempt.
pub open spec fn failed(info: PeerInfo) -> PeerInfo {
    PeerInfo {
        connecting: false,
        connection_attempts: failed_once_more(info.connection_attempts),
        ..info
    }
}

/// The registry once a connection attempt to `endpoint` has finished, with a
/// session or without. If the endpoint is not known any more, nothing
/// changes.
pub open spec fn registry_after_attempt(
    peers: Map<Endpoint, PeerInfo>,
    endpoint: Endpoint,
    new_peer: Option<u64>,
) -> Map<Endpoint, PeerInfo> {
    if !peers.contains_key(endpoint) {
        peers
    } else {
        match new_peer {
            Some(session) => peers.insert(endpoint, connected(peers[endpoint], session)),
            None => {
                if gives_up_on(peers[endpoint]) {
                    peers.remove(endpoint)
                } else {
                    peers.insert(endpoint, failed(peers[endpoint]))
                }
            },
        }
    }
}

/// How a finished connection attempt is dealt with.
pub open spec fn outcome_of_attempt(
    peers: Map<Endpoint, PeerInfo>,
    endpoint: Endpoint,
    new_peer: Option<u64>,
) -> ConnectionOutcome {
    if !peers.contains_key(endpoint) {
        ConnectionOutcome::Ignored
    } else {
        match new_peer {
            Some(session) => ConnectionOutcome::Connected { session },
            None => {
                if gives_up_on(peers[endpoint]) {
                    ConnectionOutcome::Forgotten
                } else {
                    ConnectionOutcome::Failed {
                        connection_attempts: failed_once_more(
                            peers[endpoint].connection_attempts,
                        ),
                    }
                }
            },
        }
    }
}

/// The registry after `n` connection attempts to `endpoint` in a row have
/// failed.
pub open spec fn registry_after_failures(
    peers: Map<Endpoint, PeerInfo>,
    endpoint: Endpoint,
    n: nat,
) -> Map<Endpoint, PeerInfo>
    decreases n,
{
    if n == 0 {
        peers
    } else {
        registry_after_attempt(
            registry_after_failures(peers, endpoint, (n - 1) as nat),
            endpoint,
            None,
        )
    }
}

/// A peer found through discovery is forgotten by the failure that brings
/// its count of failures in a row to
/// `MAX_FAILED_LOCAL_PEER_CONNECTION_ATTEMPTS`: it is still known after every
/// failure before that one, with each failure counted, and it is not known
/// after that one or any later one.
pub proof fn lemma_forgotten_after_max_failures(
    peers: Map<Endpoint, PeerInfo>,
    endpoint: Endpoint,
    n: nat,
)
    requires
        within_retry_budget(peers),
        peers.contains_key(endpoint),
        peers[endpoint].pt == PeerType::LinkLocalDiscovery,
    ensures
        ({
            let after = registry_after_failures(peers, endpoint, n);
            let failures = peers[endpoint].connection_attempts + n;
            &&& after.contains_key(endpoint) <==> failures
                < MAX_FAILED_LOCAL_PEER_CONNECTION_ATTEMPTS
            &&& after.contains_key(endpoint) ==> after[endpoint] == (PeerInfo {
                connecting: if n == 0 {
                    peers[endpoint].connecting
                } else {
                    false
                },
                connection_attempts: failures as u32,
                ..peers[endpoint]
            })
        }),
    decreases n,
{
    if n > 0 {
        lemma_forgotten_after_max_failures(peers, endpoint, (n - 1) as nat);
    }
}

/// A successful connection starts the count of failures afresh: a peer found
/// through discovery is then known after `n` failures in a row exactly if
/// `n` is less than `MAX_FAILED_LOCAL_PEER_CONNECTION_ATTEMPTS`.
pub proof fn lemma_success_resets_failures(
    peers: Map<Endpoint, PeerInfo>,
    endpoint: Endpoint,
    session: u64,
    n: nat,
)
    requires
        within_retry_budget(peers),
        peers.contains_key(endpoint),
        peers[endpoint].pt == PeerType::LinkLocalDiscovery,
    ensures
        registry_after_attempt(peers, endpoint, Some(session))[endpoint].connection_attempts == 0,
        registry_after_failures(
            registry_after_attempt(peers, endpoint, Some(session)),
            endpoint,
            n,
        ).contains_key(endpoint) <==> n < MAX_FAILED_LOCAL_PEER_CONNECTION_ATTEMPTS,
{
    let connected = registry_after_attempt(peers, endpoint, Some(session));
    lemma_attempt_keeps_budget(peers, endpoint, Some(session));
    lemma_forgotten_after_max_failures(connected, endpoint, n);
}

/// The result of a connection attempt touches the entry of its endpoint and
/// no other, and if the endpoint is not known any more it changes nothing:
/// a peer that was forgotten while the attempt was under way does not come
/// back with it.
pub proof fn lemma_attempt_touches_one_peer(
    peers: Map<Endpoint, PeerInfo>,
    endpoint: Endpoint,
    new_peer: Option<u64>,
    other: Endpoint,
)
    ensures
        !peers.contains_key(endpoint) ==> registry_after_attempt(peers, endpoint, new_peer)
            == peers && outcome_of_attempt(peers, endpoint, new_peer)
            == ConnectionOutcome::Ignored,
        other != endpoint ==> (registry_after_attempt(peers, endpoint, new_peer).contains_key(
            other,
        ) <==> peers.contains_key(other)),
        other != endpoint && peers.contains_key(other) ==> registry_after_attempt(
            peers,
            endpoint,
            new_peer,
        )[other] == peers[other],
        !registry_after_attempt(peers, endpoint, new_peer).contains_key(endpoint)
            ==> outcome_of_attempt(peers, endpoint, new_peer) == ConnectionOutcome::Ignored
            || outcome_of_attempt(peers, endpoint, new_peer) == ConnectionOutcome::Forgotten,
{
}

/// Peers that are not found through discovery are never forgotten for
/// failing to connect.
pub proof fn lemma_only_discovered_forgotten(
    peers: Map<Endpoint, PeerInfo>,
    endpoint: Endpoint,
    other: Endpoint,
    new_peer: Option<u64>,
)
    requires
        peers.contains_key(other),
        !registry_after_attempt(peers, endpoint, new_peer).contains_key(other),
    ensures
        other == endpoint,
        new_peer is None,
        peers[other].pt == PeerType::LinkLocalDiscovery,
        failed_once_more(peers[other].connection_attempts)
            >= MAX_FAILED_LOCAL_PEER_CONNECTION_ATTEMPTS,
{
}

/// Announcing a peer keeps every discovered peer within its budget of
/// failures.
pub proof fn lemma_add_keeps_budget(
    peers: Map<Endpoint, PeerInfo>,
    endpoint: Endpoint,
    pt: PeerType,
    peer: Option<u64>,
)
    requires
        within_retry_budget(peers),
    ensures
        within_retry_budget(registry_after_add(peers, endpoint, pt, peer)),
{
}

/// Taking in the result of a connection attempt keeps every discovered peer
/// within its budget of failures.
pub proof fn lemma_attempt_keeps_budget(
    peers: Map<Endpoint, PeerInfo>,
    endpoint: Endpoint,
    new_peer: Option<u64>,
)
    requires
        within_retry_budget(peers),
    ensures
        within_retry_budget(registry_after_attempt(peers, endpoint, new_peer)),
{
}

/// An endpoint has at most one connection attempt started for it at a time:
/// no attempt is started for an entry that is connecting, an entry for which
/// one is started is connecting from then on, and a later check starts no
/// second one for it, whatever is alive by then.
pub proof fn lemma_one_attempt_at_a_time(
    peers: Map<Endpoint, PeerInfo>,
    live: Set<u64>,
    later_live: Set<u64>,
    endpoint: Endpoint,
)
    ensures
        peers.contains_key(endpoint) && peers[endpoint].connecting ==> !endpoints_to_connect(
            peers,
            live,
        ).contains(endpoint),
        endpoints_to_connect(peers, live).contains(endpoint) ==> !peers[endpoint].connecting
            && registry_after_connecting(peers, live)[endpoint].connecting,
        endpoints_to_connect(peers, live).contains(endpoint) ==> !endpoints_to_connect(
            registry_after_connecting(peers, live),
            later_live,
        ).contains(endpoint),
{
}

/// An entry stays connecting until its attempt is reported as finished:
/// neither a check of the peers nor the announcement of a peer that does not
/// replace it clears the mark.
pub proof fn lemma_connecting_until_finished(
    peers: Map<Endpoint, PeerInfo>,
    live: Set<u64>,
    endpoint: Endpoint,
    announced: Endpoint,
    pt: PeerType,
    peer: Option<u64>,
)
    requires
        peers.contains_key(endpoint),
        peers[endpoint].connecting,
        peers[endpoint].pt != PeerType::Inbound,
    ensures
        registry_without_dead_inbound(peers, live).contains_key(endpoint),
        registry_without_dead_inbound(peers, live)[endpoint] == peers[endpoint],
        registry_after_connecting(peers, live)[endpoint] == peers[endpoint],
        !(announced == endpoint && pt == PeerType::Inbound) ==> registry_after_add(
            peers,
            announced,
            pt,
            peer,
        )[endpoint] == peers[endpoint],
{
}

/// A remote that connected to us is never connected to, and it is only
/// forgotten by the check that finds its session dead: no connection attempt
/// is started for it, the check of the peers keeps it exactly if its session
/// is alive, and it stays known when a peer is announced or a connection
/// attempt finishes.
pub proof fn lemma_inbound_left_alone(
    peers: Map<Endpoint, PeerInfo>,
    live: Set<u64>,
    endpoint: Endpoint,
    other: Endpoint,
    pt: PeerType,
    peer: Option<u64>,
)
    requires
        peers.contains_key(endpoint),
        peers[endpoint].pt == PeerType::Inbound,
    ensures
        !endpoints_to_connect(peers, live).contains(endpoint),
        registry_after_connecting(peers, live)[endpoint] == peers[endpoint],
        registry_without_dead_inbound(peers, live).contains_key(endpoint)
            <==> peers[endpoint].pr.spec_alive(live),
        registry_after_add(peers, other, pt, peer).contains_key(endpoint),
        registry_after_attempt(peers, other, peer).contains_key(endpoint),
{
}

/// The check for dead inbound peers forgets nothing else: an entry that is
/// gone after it was that of an inbound peer whose session is not alive, and
/// every other entry is as it was.
pub proof fn lemma_only_dead_inbound_removed(
    peers: Map<Endpoint, PeerInfo>,
    live: Set<u64>,
    endpoint: Endpoint,
)
    requires
        peers.contains_key(endpoint),
    ensures
        !registry_without_dead_inbound(peers, live).contains_key(endpoint) ==> peers[endpoint].pt
            == PeerType::Inbound && !peers[endpoint].pr.spec_alive(live),
        registry_without_dead_inbound(peers, live).contains_key(endpoint)
            ==> registry_without_dead_inbound(peers, live)[endpoint] == peers[endpoint],
{
}

/// When an inbound connection replaces an entry, the router is told that the
/// old session is dead only after the new entry is in the registry and the
/// new session, if one came, was handed over: a report of a dead session is
/// the last call, it names the session of the replaced entry, which was
/// alive, a new session is handed over by the call before it, and the
/// endpoint maps to the new entry by then.
pub proof fn lemma_replaced_before_reported_dead(
    peers: Map<Endpoint, PeerInfo>,
    endpoint: Endpoint,
    pt: PeerType,
    peer: Option<u64>,
    live: Set<u64>,
    i: int,
    dead: u64,
)
    requires
        0 <= i < router_calls_of_add(peers, endpoint, pt, peer, live).len(),
        router_calls_of_add(peers, endpoint, pt, peer, live)[i] == RouterCall::HandleDeadPeer(
            dead,
        ),
    ensures
        i == router_calls_of_add(peers, endpoint, pt, peer, live).len() - 1,
        pt == PeerType::Inbound,
        peers.contains_key(endpoint),
        peers[endpoint].pr.session == Some(dead),
        live.contains(dead),
        peer is Some ==> i == 1 && router_calls_of_add(peers, endpoint, pt, peer, live)[0]
            == RouterCall::AddPeerInterface(peer->0),
        peer is None ==> i == 0,
        registry_after_add(peers, endpoint, pt, peer).contains_key(endpoint),
        registry_after_add(peers, endpoint, pt, peer)[endpoint] == fresh_peer(
            PeerType::Inbound,
            peer,
        ),
{
}

/// Announcing a peer never leaves its endpoint unknown, and never forgets
/// another one.
pub proof fn lemma_add_keeps_known(
    peers: Map<Endpoint, PeerInfo>,
    endpoint: Endpoint,
    pt: PeerType,
    peer: Option<u64>,
    other: Endpoint,
)
    ensures
        registry_after_add(peers, endpoint, pt, peer).contains_key(endpoint),
        peers.contains_key(other) ==> registry_after_add(peers, endpoint, pt, peer).contains_key(
            other,
        ),
        other != endpoint && peers.contains_key(other) ==> registry_after_add(
            peers,
            endpoint,
            pt,
            peer,
        )[other] == peers[other],
{
}

spec fn listed_before(keys: Seq<Endpoint>, i: int, e: Endpoint) -> bool {
    exists|j: int| 0 <= j < i && #[trigger] keys[j] == e
}

/// Creates new peers by connecting to known endpoints and keeps track of
/// them. The view is the registry: the entry of every known endpoint.
pub struct PeerManager {
    settings: Settings,
    peers: Registry,
}

impl View for PeerManager {
    type V = Map<Endpoint, PeerInfo>;

    closed spec fn view(&self) -> Map<Endpoint, PeerInfo> {
        self.peers@
    }
}

impl PeerManager {
    #[verifier::type_invariant]
    spec fn inv(&self) -> bool {
        &&& self.peers.wf()
        &&& within_retry_budget(self.peers@)
    }

    /// What the peer manager was set up with.
    pub closed spec fn spec_settings(&self) -> Settings {
        self.settings
    }

    /// Sets up a peer manager that knows the given endpoints as static peers,
    /// none of them connected or being connected to.
    pub fn new(
        router_id: RouterId,
        static_peers_sockets: Vec<Endpoint>,
        tcp_listen_port: u16,
        quic_listen_port: u16,
        peer_discovery_port: u16,
        discovery_enabled: bool,
    ) -> (peer_manager: PeerManager)
        ensures
            peer_manager@ == static_registry(static_peers_sockets@),
            peer_manager@.dom().finite(),
            within_retry_budget(peer_manager@),
            peer_manager.spec_settings() == (Settings {
                router_id,
                tcp_listen_port,
                quic_listen_port,
                peer_discovery_port,
                discovery_enabled,
            }),
    {
        let mut peers = Registry::new();
        let mut i: usize = 0;
        while i < static_peers_sockets.len()
            invariant
                i <= static_peers_sockets.len(),
                peers.wf(),
                peers@ == static_registry(static_peers_sockets@.subrange(0, i as int)),
            decreases static_peers_sockets.len() - i,
        {
            let endpoint = static_peers_sockets[i];
            let ghost before = static_peers_sockets@.subrange(0, i as int);
            let ghost after = static_peers_sockets@.subrange(0, i + 1);
            proof {
                assert(after == before.push(endpoint));
                assert forall|e: Endpoint| after.contains(e) <==> before.contains(e) || e
                    == endpoint by {
                    if after.contains(e) {
                        let j = after.index_of(e);
                        if j < i {
                            assert(before[j] == e);
                        }
                    }
                    if before.contains(e) {
                        let j = before.index_of(e);
                        assert(after[j] == e);
                    }
                    assert(after[i as int] == endpoint);
                }
            }
            if peers.position(&endpoint).is_none() {
                peers.push(
                    endpoint,
                    PeerInfo {
                        pt: PeerType::Static,
                        connecting: false,
                        pr: PeerRef::new(),
                        connection_attempts: 0,
                    },
                );
            }
            assert(peers@ =~= static_registry(after));
            i += 1;
        }
        proof {
            assert(static_peers_sockets@.subrange(0, i as int) == static_peers_sockets@);
            peers.lemma_endpoints();
        }
        PeerManager {
            settings: Settings {
                router_id,
                tcp_listen_port,
                quic_listen_port,
                peer_discovery_port,
                discovery_enabled,
            },
            peers,
        }
    }

    /// Announces a peer: an endpoint, how it was learned about, and the
    /// session with it, if one is established already. `live` lists the
    /// sessions that are alive right now.
    pub fn add_peer(
        &mut self,
        endpoint: Endpoint,
        discovery_type: PeerType,
        peer: Option<u64>,
        live: &Vec<u64>,
    ) -> (update: PeerUpdate)
        ensures
            final(self)@ == registry_after_add(old(self)@, endpoint, discovery_type, peer),
            update.change == change_of_add(old(self)@, endpoint, discovery_type),
            update.router_calls@ == router_calls_of_add(
                old(self)@,
                endpoint,
                discovery_type,
                peer,
                live@.to_set(),
            ),
            final(self).spec_settings() == old(self).spec_settings(),
            final(self)@.dom().finite(),
            within_retry_budget(final(self)@),
    {
        proof {
            use_type_invariant(&*self);
        }
        let mut peers = Registry::new();
        std::mem::swap(&mut peers, &mut self.peers);
        let mut router_calls: Vec<RouterCall> = Vec::new();
        let fresh = PeerInfo {
            pt: discovery_type,
            connecting: false,
            pr: PeerRef { session: peer },
            connection_attempts: 0,
        };
        let change = match peers.position(&endpoint) {
            None => {
                peers.push(endpoint, fresh);
                if let Some(session) = peer {
                    router_calls.push(RouterCall::AddPeerInterface(session));
                }
                RegistryChange::Added
            },
            Some(i) => {
                if discovery_type == PeerType::Inbound {
                    let old_peer_info = peers.info_at(i);
                    peers.set_info_at(i, fresh);
                    if let Some(session) = peer {
                        router_calls.push(RouterCall::AddPeerInterface(session));
                    }
                    // The new entry is in place; only now is the old session
                    // reported dead.
                    if old_peer_info.pr.alive(live) {
                        if let Some(old_session) = old_peer_info.pr.session {
                            router_calls.push(RouterCall::HandleDeadPeer(old_session));
                        }
                    }
                    RegistryChange::Replaced
                } else {
                    RegistryChange::Unchanged
                }
            },
        };
        proof {
            peers.lemma_endpoints();
            assert(router_calls@ =~= router_calls_of_add(
                old(self)@,
                endpoint,
                discovery_type,
                peer,
                live@.to_set(),
            ));
        }
        self.peers = peers;
        PeerUpdate { change, router_calls }
    }

    /// Forgets the inbound peers whose session is not among the live ones.
    /// A remote that connected to us is never connected to; it has to come
    /// back by itself.
    pub fn remove_dead_inbound(&mut self, live: &Vec<u64>)
        ensures
            final(self)@ == registry_without_dead_inbound(old(self)@, live@.to_set()),
            final(self).spec_settings() == old(self).spec_settings(),
            final(self)@.dom().finite(),
            within_retry_budget(final(self)@),
    {
        proof {
            use_type_invariant(&*self);
        }
        let mut peers = Registry::new();
        std::mem::swap(&mut peers, &mut self.peers);
        let ghost before = peers@;
        let ghost keys = peers.endpoints();
        let ghost live_set = live@.to_set();
        proof {
            peers.lemma_endpoints();
        }
        let n = peers.len();
        let mut kept = Registry::new();
        let mut i: usize = 0;
        while i < n
            invariant
                i <= n,
                n == keys.len(),
                peers.wf(),
                peers@ == before,
                peers.endpoints() == keys,
                keys.no_duplicates(),
                before.dom() == keys.to_set(),
                live_set == live@.to_set(),
                kept.wf(),
                forall|e: Endpoint| #[trigger]
                    kept@.contains_key(e) ==> before.contains_key(e) && !is_dead_inbound(
                        before[e],
                        live_set,
                    ) && kept@[e] == before[e] && listed_before(keys, i as int, e),
                forall|j: int|
                    0 <= j < i && !is_dead_inbound(before[#[trigger] keys[j]], live_set)
                        ==> kept@.contains_key(keys[j]),
            decreases n - i,
        {
            let info = peers.info_at(i);
            let endpoint = peers.endpoint_at(i);
            let ghost kept_before = kept@;
            if info.pt != PeerType::Inbound || info.pr.alive(live) {
                proof {
                    if kept@.contains_key(endpoint) {
                        let j = choose|j: int| 0 <= j < i && #[trigger] keys[j] == endpoint;
                        assert(keys[j] == keys[i as int]);
                    }
                }
                kept.push(endpoint, info);
            }
            proof {
                assert forall|e: Endpoint| #[trigger] kept@.contains_key(e) implies listed_before(
                    keys,
                    i + 1,
                    e,
                ) by {
                    if kept_before.contains_key(e) {
                        let j = choose|j: int| 0 <= j < i && #[trigger] keys[j] == e;
                        assert(0 <= j < i + 1 && keys[j] == e);
                    } else {
                        assert(keys[i as int] == e);
                    }
                }
            }
            i += 1;
        }
        proof {
            assert forall|e: Endpoint|
                kept@.contains_key(e) <==> registry_without_dead_inbound(
                    before,
                    live_set,
                ).contains_key(e) by {
                if before.contains_key(e) && !is_dead_inbound(before[e], live_set) {
                    assert(keys.contains(e));
                    let j = keys.index_of(e);
                    assert(keys[j] == e);
                }
            }
            assert(kept@ =~= registry_without_dead_inbound(before, live_set));
            kept.lemma_endpoints();
        }
        self.peers = kept;
    }

    /// Starts a connection attempt for every peer that needs one: marks the
    /// entry as connecting and returns the endpoint. The caller connects to
    /// each returned endpoint and reports how it went.
    pub fn connect_dead_peers(&mut self, live: &Vec<u64>) -> (endpoints: Vec<Endpoint>)
        ensures
            final(self)@ == registry_after_connecting(old(self)@, live@.to_set()),
            endpoints@.to_set() == endpoints_to_connect(old(self)@, live@.to_set()),
            endpoints@.no_duplicates(),
            final(self).spec_settings() == old(self).spec_settings(),
            final(self)@.dom().finite(),
            within_retry_budget(final(self)@),
    {
        proof {
            use_type_invariant(&*self);
        }
        let mut peers = Registry::new();
        std::mem::swap(&mut peers, &mut self.peers);
        let ghost before = peers@;
        let ghost keys = peers.endpoints();
        let ghost live_set = live@.to_set();
        proof {
            peers.lemma_endpoints();
        }
        let n = peers.len();
        let mut endpoints: Vec<Endpoint> = Vec::new();
        let mut i: usize = 0;
        while i < n
            invariant
                i <= n,
                n == keys.len(),
                peers.wf(),
                peers.endpoints() == keys,
                keys.no_duplicates(),
                before.dom() == keys.to_set(),
                peers@.dom() == before.dom(),
                live_set == live@.to_set(),
                within_retry_budget(before),
                forall|j: int|
                    0 <= j < i ==> peers@[#[trigger] keys[j]] == registry_after_connecting(
                        before,
                        live_set,
                    )[keys[j]],
                forall|j: int| i <= j < n ==> peers@[#[trigger] keys[j]] == before[keys[j]],
                endpoints@.no_duplicates(),
                forall|k: int|
                    0 <= k < endpoints@.len() ==> endpoints_to_connect(before, live_set).contains(
                        #[trigger] endpoints@[k],
                    ) && listed_before(keys, i as int, endpoints@[k]),
                forall|j: int|
                    0 <= j < i && needs_connection(before[#[trigger] keys[j]], live_set)
                        ==> endpoints@.contains(keys[j]),
            decreases n - i,
        {
            let info = peers.info_at(i);
            let ghost launched = endpoints@;
            assert(keys.contains(keys[i as int]));
            if !info.connecting && !info.pr.alive(live) {
                if info.pt == PeerType::Inbound {
                    // A remote that connected to us is not connected to.
                } else {
                    let endpoint = peers.endpoint_at(i);
                    peers.set_info_at(
                        i,
                        PeerInfo {
                            pt: info.pt,
                            connecting: true,
                            pr: info.pr,
                            connection_attempts: info.connection_attempts,
                        },
                    );
                    proof {
                        assert forall|k: int| 0 <= k < launched.len() implies launched[k]
                            != endpoint by {
                            let j = choose|j: int| 0 <= j < i && #[trigger] keys[j] == launched[k];
                            assert(keys[j] != keys[i as int]);
                        }
                    }
                    endpoints.push(endpoint);
                    assert(endpoints@[launched.len() as int] == endpoint);
                }
            }
            proof {
                assert forall|k: int| 0 <= k < endpoints@.len() implies listed_before(
                    keys,
                    i + 1,
                    #[trigger] endpoints@[k],
                ) by {
                    if k < launched.len() {
                        let j = choose|j: int| 0 <= j < i && #[trigger] keys[j] == launched[k];
                        assert(0 <= j < i + 1 && keys[j] == endpoints@[k]);
                    } else {
                        assert(keys[i as int] == endpoints@[k]);
                    }
                }
                assert forall|j: int|
                    0 <= j < i + 1 && needs_connection(
                        before[#[trigger] keys[j]],
                        live_set,
                    ) implies endpoints@.contains(keys[j]) by {
                    if j < i {
                        let k = launched.index_of(keys[j]);
                        assert(endpoints@[k] == keys[j]);
                    } else {
                        assert(endpoints@[launched.len() as int] == keys[j]);
                    }
                }
            }
            i += 1;
        }
        proof {
            let target = registry_after_connecting(before, live_set);
            assert forall|e: Endpoint| peers@.contains_key(e) implies #[trigger] peers@[e]
                == target[e] by {
                assert(keys.contains(e));
                let j = keys.index_of(e);
                assert(keys[j] == e);
            }
            assert(peers@ =~= target);
            assert forall|e: Endpoint|
                endpoints@.to_set().contains(e) <==> endpoints_to_connect(
                    before,
                    live_set,
                ).contains(e) by {
                if endpoints@.contains(e) {
                    let k = endpoints@.index_of(e);
                    assert(endpoints@[k] == e);
                }
                if endpoints_to_connect(before, live_set).contains(e) {
                    assert(keys.contains(e));
                    let j = keys.index_of(e);
                    assert(keys[j] == e);
                }
            }
            assert(endpoints@.to_set() =~= endpoints_to_connect(before, live_set));
            peers.lemma_endpoints();
        }
        self.peers = peers;
        endpoints
    }

    /// The periodic check of the known peers: forgets dead inbound peers,
    /// then starts a connection attempt for every remaining peer that needs
    /// one.
    pub fn check_peers(&mut self, live: &Vec<u64>) -> (endpoints: Vec<Endpoint>)
        ensures
            final(self)@ == registry_after_connecting(
                registry_without_dead_inbound(old(self)@, live@.to_set()),
                live@.to_set(),
            ),
            endpoints@.to_set() == endpoints_to_connect(
                registry_without_dead_inbound(old(self)@, live@.to_set()),
                live@.to_set(),
            ),
            endpoints@.no_duplicates(),
            final(self).spec_settings() == old(self).spec_settings(),
            final(self)@.dom().finite(),
            within_retry_budget(final(self)@),
    {
        self.remove_dead_inbound(live);
        self.connect_dead_peers(live)
    }

    /// Takes in the result of a connection attempt to `endpoint`: the new
    /// session, or `None` if the attempt failed.
    pub fn connection_finished(
        &mut self,
        endpoint: Endpoint,
        maybe_new_peer: Option<u64>,
    ) -> (outcome: ConnectionOutcome)
        ensures
            final(self)@ == registry_after_attempt(old(self)@, endpoint, maybe_new_peer),
            outcome == outcome_of_attempt(old(self)@, endpoint, maybe_new_peer),
            final(self).spec_settings() == old(self).spec_settings(),
            final(self)@.dom().finite(),
            within_retry_budget(final(self)@),
    {
        proof {
            use_type_invariant(&*self);
        }
        let mut peers = Registry::new();
        std::mem::swap(&mut peers, &mut self.peers);
        // Only take the result in if the peer is still known.
        let outcome = match peers.position(&endpoint) {
            None => ConnectionOutcome::Ignored,
            Some(i) => {
                let info = peers.info_at(i);
                match maybe_new_peer {
                    Some(session) => {
                        peers.set_info_at(
                            i,
                            PeerInfo {
                                pt: info.pt,
                                connecting: false,
                                pr: PeerRef::refer(session),
                                connection_attempts: 0,
                            },
                        );
                        ConnectionOutcome::Connected { session }
                    },
                    None => {
                        let connection_attempts = if info.connection_attempts < u32::MAX {
                            info.connection_attempts + 1
                        } else {
                            info.connection_attempts
                        };
                        if info.pt == PeerType::LinkLocalDiscovery && connection_attempts
                            >= MAX_FAILED_LOCAL_PEER_CONNECTION_ATTEMPTS {
                            peers.remove_at(i);
                            ConnectionOutcome::Forgotten
                        } else {
                            peers.set_info_at(
                                i,
                                PeerInfo {
                                    pt: info.pt,
                                    connecting: false,
                                    pr: info.pr,
                                    connection_attempts,
                                },
                            );
                            ConnectionOutcome::Failed { connection_attempts }
                        }
                    },
                }
            },
        };
        proof {
            peers.lemma_endpoints();
        }
        self.peers = peers;
        outcome
    }

    /// Takes in a connection that a remote made to us: the protocol it came
    /// over, the remote's address, and the session. `live` lists the
    /// sessions that are alive right now.
    pub fn accept_inbound(
        &mut self,
        proto: Protocol,
        remote: SocketAddress,
        session: u64,
        live: &Vec<u64>,
    ) -> (update: PeerUpdate)
        ensures
            final(self)@ == old(self)@.insert(
                Endpoint { proto, socket_addr: remote },
                fresh_peer(PeerType::Inbound, Some(session)),
            ),
            update.change == change_of_add(
                old(self)@,
                Endpoint { proto, socket_addr: remote },
                PeerType::Inbound,
            ),
            update.router_calls@ == router_calls_of_add(
                old(self)@,
                Endpoint { proto, socket_addr: remote },
                PeerType::Inbound,
                Some(session),
                live@.to_set(),
            ),
            final(self).spec_settings() == old(self).spec_settings(),
            final(self)@.dom().finite(),
            within_retry_budget(final(self)@),
    {
        self.add_peer(Endpoint::new(proto, remote), PeerType::Inbound, Some(session), live)
    }

    /// Takes in a datagram received on the discovery socket. A valid beacon
    /// of another node announces a peer found through discovery; anything
    /// else is rejected and changes nothing.
    pub fn handle_discovery_packet(
        &mut self,
        packet: &[u8],
        remote: SocketAddress,
    ) -> (handled: Result<DiscoveredPeer, DiscoveryRejection>)
        ensures
            handled == match announced_endpoint(
                packet@,
                remote,
                old(self).spec_settings().router_id@,
            ) {
                Ok(endpoint) => Ok::<_, DiscoveryRejection>(
                    DiscoveredPeer {
                        endpoint,
                        change: change_of_add(old(self)@, endpoint, PeerType::LinkLocalDiscovery),
                    },
                ),
                Err(rejection) => Err(rejection),
            },
            final(self)@ == match handled {
                Ok(discovered) => registry_after_add(
                    old(self)@,
                    discovered.endpoint,
                    PeerType::LinkLocalDiscovery,
                    None,
                ),
                Err(_) => old(self)@,
            },
            final(self).spec_settings() == old(self).spec_settings(),
            final(self)@.dom().finite(),
            within_retry_budget(final(self)@),
    {
        proof {
            use_type_invariant(&*self);
            self.peers.lemma_endpoints();
        }
        match check_discovery_packet(packet, remote, &self.settings.router_id) {
            Err(rejection) => Err(rejection),
            Ok(endpoint) => {
                let no_sessions: Vec<u64> = Vec::new();
                let update = self.add_peer(
                    endpoint,
                    PeerType::LinkLocalDiscovery,
                    None,
                    &no_sessions,
                );
                Ok(DiscoveredPeer { endpoint, change: update.change })
            },
        }
    }

    /// The beacon this node sends: its stream port and its identifier.
    pub fn discovery_beacon(&self) -> (datagram: [u8; 50])
        ensures
            datagram@ == beacon_bytes(
                self.spec_settings().tcp_listen_port,
                self.spec_settings().router_id@,
            ),
    {
        let beacon = Beacon {
            port: self.settings.tcp_listen_port,
            router_id: self.settings.router_id,
        };
        beacon.encode()
    }

    /// Where beacons are sent: the discovery group, on the discovery port.
    pub fn discovery_destination(&self) -> (destination: SocketAddress)
        ensures
            destination == (SocketAddress::V6 {
                ip: LL_PEER_DISCOVERY_GROUP,
                port: self.spec_settings().peer_discovery_port,
                flowinfo: 0,
                scope_id: 0,
            }),
    {
        SocketAddress::V6 {
            ip: LL_PEER_DISCOVERY_GROUP,
            port: self.settings.peer_discovery_port,
            flowinfo: 0,
            scope_id: 0,
        }
    }

    #[verifier::when_used_as_spec(spec_settings)]
    pub fn settings(&self) -> (settings: Settings)
        ensures
            settings == self.spec_settings(),
    {
        self.settings
    }

    /// The entry of an endpoint, if it is known.
    pub fn peer_info(&self, endpoint: &Endpoint) -> (info: Option<PeerInfo>)
        ensures
            info == if self@.contains_key(*endpoint) {
                Some(self@[*endpoint])
            } else {
                None
            },
    {
        proof {
            use_type_invariant(self);
        }
        self.peers.get(endpoint)
    }

    /// Number of known peers.
    pub fn known_peers(&self) -> (amount: usize)
        ensures
            self@.dom().finite(),
            amount == self@.dom().len(),
    {
        proof {
            use_type_invariant(self);
            self.peers.lemma_endpoints();
        }
        self.peers.len()
    }

    /// The known endpoints, each listed once.
    pub fn endpoints(&self) -> (endpoints: Vec<Endpoint>)
        ensures
            endpoints@.no_duplicates(),
            endpoints@.to_set() == self@.dom(),
            within_retry_budget(self@),
    {
        proof {
            use_type_invariant(self);
            self.peers.lemma_endpoints();
        }
        let n = self.peers.len();
        let mut endpoints: Vec<Endpoint> = Vec::new();
        let mut i: usize = 0;
        while i < n
            invariant
                i <= n,
                n == self.peers.endpoints().len(),
                self.peers.wf(),
                endpoints@ == self.peers.endpoints().subrange(0, i as int),
            decreases n - i,
        {
            let endpoint = self.peers.endpoint_at(i);
            endpoints.push(endpoint);
            assert(endpoints@ =~= self.peers.endpoints().subrange(0, i + 1));
            i += 1;
        }
        assert(endpoints@ =~= self.peers.endpoints());
        endpoints
    }
}

} // verus!
