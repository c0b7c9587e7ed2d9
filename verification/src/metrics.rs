//! Collection of runtime metrics of a node. The item of interest is the
//! [`Metrics`] trait. A user provides an implementation for the metrics they
//! are interested in; every method does nothing unless it is overridden, so
//! [`NoMetrics`] gathers none.

use vstd::prelude::*;
use crate::peer_manager::PeerType;

verus! {

/// The collection of all metrics exported by a node.
pub trait Metrics {
    /// The router received a new Hello TLV from a peer.
    fn router_incoming_hello(&self) {
    }

    /// The router received a new IHU TLV from a peer.
    fn router_incoming_ihu(&self) {
    }

    /// The router received a new Seqno request TLV from a peer.
    fn router_incoming_seqno_request(&self) {
    }

    /// The router received a new Route request TLV from a peer. It is
    /// recorded whether this is a wildcard request (a request for a dump of
    /// the route table) or a request for a specific subnet.
    fn router_incoming_route_request(&self, _wildcard: bool) {
    }

    /// The router received a new Update TLV from a peer.
    fn router_incoming_update(&self) {
    }

    /// The router received a new TLV from a peer, but the type is unknown.
    fn router_incoming_unknown_tlv(&self) {
    }

    /// A peer was added to the router.
    fn router_peer_added(&self) {
    }

    /// A peer was removed from the router.
    fn router_peer_removed(&self) {
    }

    /// A peer informed the router it died, or the router otherwise noticed
    /// the peer is dead.
    fn router_peer_died(&self) {
    }

    /// The router ran a route selection procedure.
    fn router_route_selection_ran(&self) {
    }

    /// A source key expired and got cleaned up by the router.
    fn router_source_key_expired(&self) {
    }

    /// A route key expired, and the router either set the metric of the
    /// route to infinity, or cleaned up the route entry altogether.
    fn router_route_key_expired(&self, _removed: bool) {
    }

    /// A route which expired was the selected route for the subnet. Note
    /// that [`Self::router_route_key_expired`] will also have been called.
    fn router_selected_route_expired(&self) {
    }

    /// The router sends a "triggered" update to its peers.
    fn router_triggered_update(&self) {
    }

    /// The router got a packet to route.
    fn router_route_packet(&self) {
    }

    /// The router extracted a packet for the local subnet.
    fn router_route_packet_local(&self) {
    }

    /// The router dropped a packet it was routing because its TTL reached 0.
    fn router_route_packet_ttl_expired(&self) {
    }

    /// The router dropped a packet it was routing because there was no route
    /// for the destination IP.
    fn router_route_packet_no_route(&self) {
    }

    /// A new peer was added to the peer manager while it is running.
    fn peer_manager_peer_added(&self, _pt: PeerType) {
    }

    /// Sets the amount of peers known by the peer manager.
    fn peer_manager_known_peers(&self, _amount: usize) {
    }

    /// The peer manager started an attempt to connect to a remote endpoint.
    fn peer_manager_connection_attempted(&self) {
    }

    /// The peer manager finished an attempt to connect to a remote endpoint.
    /// The connection could have failed.
    fn peer_manager_connection_finished(&self) {
    }
}

/// Gathers no metrics.
#[derive(Clone, Copy, Debug, PartialEq, Eq, Structural)]
pub struct NoMetrics;

impl Metrics for NoMetrics {

}

} // verus!
