//! Peer-connection management for an overlay-network node.
//!
//! The crate holds the decisions of the peer manager: which remotes are
//! known, when a connection to one of them is attempted, when an entry is
//! replaced or forgotten, and how link-local discovery beacons are built and
//! validated. Sockets, timers and the router are driven by the caller, which
//! feeds events in and carries the returned actions out.

pub mod discovery;
pub mod endpoint;
pub mod interfaces;
pub mod metrics;
pub mod peer;
pub mod peer_manager;
pub mod registry;
pub mod router_id;
pub mod transport;
