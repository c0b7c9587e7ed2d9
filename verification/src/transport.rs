//! Settings of the secure transport.

use std::sync::Arc;
use vstd::prelude::*;

verus! {

/// Server name under which secure connections to peers are made.
pub const QUIC_SERVER_NAME: &'static str = "dummy.mycelium";

/// Transport parameters of a secure connection. They favour low latency of
/// idle and keep-alive handling over throughput.
#[derive(Clone, Copy, Debug, PartialEq, Eq)]
pub struct QuicTransportSettings {
    /// Unidirectional streams a remote may have open at a time.
    pub max_concurrent_uni_streams: u8,
    /// Bidirectional streams a remote may have open at a time.
    pub max_concurrent_bidi_streams: u8,
    /// Seconds without traffic after which a connection times out.
    pub max_idle_timeout: u64,
    /// Seconds between two keep-alive packets.
    pub keep_alive_interval: u64,
    /// Whether the path MTU is discovered.
    pub mtu_discovery: bool,
    /// Bytes buffered for incoming datagrams; `None` turns them off.
    pub datagram_receive_buffer_size: Option<usize>,
    /// Bytes buffered for outgoing datagrams.
    pub datagram_send_buffer_size: usize,
}

impl QuicTransportSettings {
    /// The parameters every secure connection of a node is set up with: no
    /// unidirectional streams, a handful of bidirectional ones, no datagrams,
    /// and a connection that is kept alive well within its idle timeout.
    pub open spec fn spec_for_peers() -> QuicTransportSettings {
        QuicTransportSettings {
            max_concurrent_uni_streams: 0,
            max_concurrent_bidi_streams: 5,
            max_idle_timeout: 60,
            keep_alive_interval: 20,
            mtu_discovery: true,
            datagram_receive_buffer_size: None,
            datagram_send_buffer_size: 0,
        }
    }

    #[verifier::when_used_as_spec(spec_for_peers)]
    pub fn for_peers() -> (settings: QuicTransportSettings)
        ensures
            settings == Self::spec_for_peers(),
            settings.keep_alive_interval < settings.max_idle_timeout,
    {
        QuicTransportSettings {
            max_concurrent_uni_streams: 0,
            max_concurrent_bidi_streams: 5,
            max_idle_timeout: 60,
            keep_alive_interval: 20,
            mtu_discovery: true,
            datagram_receive_buffer_size: None,
            datagram_send_buffer_size: 0,
        }
    }
}

/// The transport configuration of the `quinn` crate.
#[verifier::external_type_specification]
#[verifier::external_body]
pub struct ExTransportConfig(quinn::TransportConfig);

/// The settings that a transport configuration carries: what its fields
/// `max_concurrent_uni_streams`, `max_concurrent_bidi_streams`,
/// `max_idle_timeout`, `keep_alive_interval`, `mtu_discovery_config`,
/// `datagram_receive_buffer_size` and `datagram_send_buffer_size` hold, the
/// two times in whole seconds and MTU discovery as on or off.
pub uninterp spec fn carried_settings(config: quinn::TransportConfig) -> QuicTransportSettings;

/// Calls `quinn::TransportConfig::default`, which fills in the crate's own
/// defaults. Nothing is claimed about them.
#[verifier::external_body]
fn default_transport_config() -> (config: quinn::TransportConfig) {
    quinn::TransportConfig::default()
}

/// Calls `quinn::TransportConfig::max_concurrent_uni_streams`, a setter that
/// takes any value: it assigns that one field and leaves the others alone.
#[verifier::external_body]
fn set_max_concurrent_uni_streams(config: &mut quinn::TransportConfig, streams: u8)
    ensures
        carried_settings(*final(config)) == (QuicTransportSettings {
            max_concurrent_uni_streams: streams,
            ..carried_settings(*old(config))
        }),
{
    config.max_concurrent_uni_streams(quinn::VarInt::from(streams));
}

/// Calls `quinn::TransportConfig::max_concurrent_bidi_streams`, a setter
/// that takes any value: it assigns that one field and leaves the others
/// alone.
#[verifier::external_body]
fn set_max_concurrent_bidi_streams(config: &mut quinn::TransportConfig, streams: u8)
    ensures
        carried_settings(*final(config)) == (QuicTransportSettings {
            max_concurrent_bidi_streams: streams,
            ..carried_settings(*old(config))
        }),
{
    config.max_concurrent_bidi_streams(quinn::VarInt::from(streams));
}

/// Calls `quinn::TransportConfig::max_idle_timeout` with the timeout that
/// `quinn::IdleTimeout::try_from` makes of the seconds. The conversion counts
/// in milliseconds and succeeds exactly if their number is below 2^62. Then
/// the setter assigns that one field and leaves the others alone. If the
/// conversion fails, the configuration is left alone and `false` is
/// returned.
#[verifier::external_body]
fn set_max_idle_timeout(config: &mut quinn::TransportConfig, seconds: u64) -> (set: bool)
    ensures
        set == (seconds * 1000 < 0x4000_0000_0000_0000),
        set ==> carried_settings(*final(config)) == (QuicTransportSettings {
            max_idle_timeout: seconds,
            ..carried_settings(*old(config))
        }),
        !set ==> carried_settings(*final(config)) == carried_settings(*old(config)),
{
    match quinn::IdleTimeout::try_from(std::time::Duration::from_secs(seconds)) {
        Ok(timeout) => {
            config.max_idle_timeout(Some(timeout));
            true
        },
        Err(_) => false,
    }
}

/// Calls `quinn::TransportConfig::mtu_discovery_config`, a setter: with the
/// crate's default discovery parameters to turn discovery on, with `None` to
/// turn it off. It assigns that one field and leaves the others alone.
#[verifier::external_body]
fn set_mtu_discovery(config: &mut quinn::TransportConfig, enabled: bool)
    ensures
        carried_settings(*final(config)) == (QuicTransportSettings {
            mtu_discovery: enabled,
            ..carried_settings(*old(config))
        }),
{
    config.mtu_discovery_config(enabled.then_some(quinn::MtuDiscoveryConfig::default()));
}

/// Calls `quinn::TransportConfig::keep_alive_interval`, a setter that takes
/// any interval: it assigns that one field and leaves the others alone.
#[verifier::external_body]
fn set_keep_alive_interval(config: &mut quinn::TransportConfig, seconds: u64)
    ensures
        carried_settings(*final(config)) == (QuicTransportSettings {
            keep_alive_interval: seconds,
            ..carried_settings(*old(config))
        }),
{
    config.keep_alive_interval(Some(std::time::Duration::from_secs(seconds)));
}

/// Calls `quinn::TransportConfig::datagram_receive_buffer_size`, a setter
/// that takes any value: it assigns that one field and leaves the others
/// alone.
#[verifier::external_body]
fn set_datagram_receive_buffer_size(config: &mut quinn::TransportConfig, size: Option<usize>)
    ensures
        carried_settings(*final(config)) == (QuicTransportSettings {
            datagram_receive_buffer_size: size,
            ..carried_settings(*old(config))
        }),
{
    config.datagram_receive_buffer_size(size);
}

/// Calls `quinn::TransportConfig::datagram_send_buffer_size`, a setter that
/// takes any value: it assigns that one field and leaves the others alone.
#[verifier::external_body]
fn set_datagram_send_buffer_size(config: &mut quinn::TransportConfig, size: usize)
    ensures
        carried_settings(*final(config)) == (QuicTransportSettings {
            datagram_send_buffer_size: size,
            ..carried_settings(*old(config))
        }),
{
    config.datagram_send_buffer_size(size);
}

impl QuicTransportSettings {
    /// Whether the idle timeout can be put on the wire: counted in
    /// milliseconds, it has to stay below 2^62.
    pub open spec fn idle_timeout_fits(&self) -> bool {
        self.max_idle_timeout * 1000 < 0x4000_0000_0000_0000
    }

    /// Makes the transport configuration that carries these settings. There
    /// is none if the idle timeout cannot be put on the wire.
    pub fn transport_config(&self) -> (config: Option<quinn::TransportConfig>)
        ensures
            config is Some <==> self.idle_timeout_fits(),
            config is Some ==> carried_settings(config->0) == *self,
    {
        let mut config = default_transport_config();
        set_max_concurrent_uni_streams(&mut config, self.max_concurrent_uni_streams);
        set_max_concurrent_bidi_streams(&mut config, self.max_concurrent_bidi_streams);
        if !set_max_idle_timeout(&mut config, self.max_idle_timeout) {
            return None;
        }
        set_mtu_discovery(&mut config, self.mtu_discovery);
        set_keep_alive_interval(&mut config, self.keep_alive_interval);
        set_datagram_receive_buffer_size(&mut config, self.datagram_receive_buffer_size);
        set_datagram_send_buffer_size(&mut config, self.datagram_send_buffer_size);
        Some(config)
    }

    /// The settings for peers can always be carried.
    pub proof fn lemma_for_peers_fits()
        ensures
            Self::spec_for_peers().idle_timeout_fits(),
            Self::spec_for_peers().keep_alive_interval < Self::spec_for_peers().max_idle_timeout,
    {
    }
}

/// Certificate verifier that treats any certificate as valid.
#[derive(Clone, Copy, Debug, PartialEq, Eq, Structural)]
pub struct SkipServerVerification;

impl SkipServerVerification {
    pub fn new() -> (verifier: Arc<Self>)
        ensures
            *verifier == SkipServerVerification,
    {
        Arc::new(SkipServerVerification)
    }

    /// Judges the certificate a server presented, given in DER together
    /// with the OCSP response that came with it: whatever they hold, the
    /// certificate is taken as valid.
    pub fn verify_server_cert(&self, _end_entity: &[u8], _ocsp_response: &[u8]) -> (valid: bool)
        ensures
            valid,
    {
        true
    }
}

} // verus!
