//! Fixed parameters of the client connection.

use vstd::prelude::*;

verus! {

/// Largest datagram, in bytes, that is handed to or taken from the network.
pub const MAX_DATAGRAM_SIZE: usize = 1350;

/// Size, in bytes, of the buffer that inbound datagrams and stream data are
/// read into.
pub const RECEIVE_BUFFER_SIZE: usize = 65535;

/// The stream on which the one request/response exchange takes place.
pub const HTTP_REQ_STREAM_ID: u64 = 4;

/// The address family of a resolved peer address.
#[derive(Clone, Copy, Debug, PartialEq, Eq, Structural)]
pub enum AddressFamily {
    V4,
    V6,
}

/// The wildcard address, with an ephemeral port, of a family.
pub open spec fn wildcard_of(family: AddressFamily) -> Seq<char> {
    match family {
        AddressFamily::V4 => "0.0.0.0:0"@,
        AddressFamily::V6 => "[::]:0"@,
    }
}

/// The local address to bind for a peer of the given family: the wildcard
/// address of that same family, never a dual-stack one.
pub fn bind_address(family: AddressFamily) -> (addr: &'static str)
    ensures
        addr@ == wildcard_of(family),
{
    match family {
        AddressFamily::V4 => "0.0.0.0:0",
        AddressFamily::V6 => "[::]:0",
    }
}

/// The application protocols that the client offers, most wanted first.
pub open spec fn client_protocols() -> Seq<Seq<char>> {
    seq!["hq-interop"@, "hq-29"@, "hq-28"@, "hq-27"@, "http/0.9"@, "http/1.1"@]
}

/// How the engine is configured for a connection.
#[derive(Clone, Debug)]
pub struct ConnectionSettings {
    /// Whether the peer's certificate is verified.
    pub verify_peer: bool,
    /// The application protocols to offer, most wanted first.
    pub application_protos: Vec<&'static str>,
    /// The directory that holds the trust anchors.
    pub trust_anchor_dir: &'static str,
    /// The file that holds the certificate chain, in PEM.
    pub cert_chain_file: &'static str,
    /// The file that holds the private key, in PEM.
    pub private_key_file: &'static str,
    /// Milliseconds without traffic after which the connection is given up.
    pub max_idle_timeout: u64,
    /// Largest datagram that the client accepts.
    pub max_recv_udp_payload_size: usize,
    /// Largest datagram that the client sends.
    pub max_send_udp_payload_size: usize,
    /// Bytes that the peer may send on the whole connection at first.
    pub initial_max_data: u64,
    /// Bytes that the peer may send at first on a stream that the client opened.
    pub initial_max_stream_data_bidi_local: u64,
    /// Bytes that the peer may send at first on a stream that it opened.
    pub initial_max_stream_data_bidi_remote: u64,
    /// Bidirectional streams that the peer may open at first.
    pub initial_max_streams_bidi: u64,
    /// Unidirectional streams that the peer may open at first.
    pub initial_max_streams_uni: u64,
    /// Whether the connection stays on the path it started on.
    pub disable_active_migration: bool,
}

impl ConnectionSettings {
    /// The settings of the client.
    pub fn client() -> (settings: ConnectionSettings)
        ensures
            !settings.verify_peer,
            settings.application_protos@.map_values(|p: &'static str| p@) == client_protocols(),
            settings.trust_anchor_dir@ == "./"@,
            settings.cert_chain_file@ == "cert.crt"@,
            settings.private_key_file@ == "cert.key"@,
            settings.max_idle_timeout == 5000,
            settings.max_recv_udp_payload_size == MAX_DATAGRAM_SIZE,
            settings.max_send_udp_payload_size == MAX_DATAGRAM_SIZE,
            settings.initial_max_data == 10_000_000,
            settings.initial_max_stream_data_bidi_local == 1_000_000,
            settings.initial_max_stream_data_bidi_remote == 1_000_000,
            settings.initial_max_streams_bidi == 100,
            settings.initial_max_streams_uni == 100,
            settings.disable_active_migration,
    {
        let mut application_protos: Vec<&'static str> = Vec::new();
        application_protos.push("hq-interop");
        application_protos.push("hq-29");
        application_protos.push("hq-28");
        application_protos.push("hq-27");
        application_protos.push("http/0.9");
        application_protos.push("http/1.1");
        assert(application_protos@.map_values(|p: &'static str| p@) =~= client_protocols());
        ConnectionSettings {
            verify_peer: false,
            application_protos,
            trust_anchor_dir: "./",
            cert_chain_file: "cert.crt",
            private_key_file: "cert.key",
            max_idle_timeout: 5000,
            max_recv_udp_payload_size: MAX_DATAGRAM_SIZE,
            max_send_udp_payload_size: MAX_DATAGRAM_SIZE,
            initial_max_data: 10_000_000,
            initial_max_stream_data_bidi_local: 1_000_000,
            initial_max_stream_data_bidi_remote: 1_000_000,
            initial_max_streams_bidi: 100,
            initial_max_streams_uni: 100,
            disable_active_migration: true,
        }
    }
}

/// What can go wrong while a connection is set up.
#[derive(Clone, Copy, Debug, PartialEq, Eq, Structural)]
pub enum SetupFailure {
    /// The target is no absolute URL.
    Address,
    /// The target's host has no address.
    Resolution,
    /// The readiness notifier could not be set up.
    Notifier,
    /// The local address could not be bound.
    Bind,
    /// The engine refused its configuration.
    Configuration,
    /// The trust anchors could not be loaded.
    TrustAnchors,
    /// The certificate chain could not be loaded.
    CertificateChain,
    /// The private key could not be loaded.
    PrivateKey,
    /// No connection identifier could be generated.
    Identifier,
    /// The engine could not start the connection.
    Connect,
}

impl SetupFailure {
    /// Whether the failure concerns the certificate material only.
    pub open spec fn concerns_certificates(self) -> bool {
        self is TrustAnchors || self is CertificateChain || self is PrivateKey
    }

    /// Whether the failure ends the attempt to connect. Failures to load
    /// certificate material do not: they are reported and the attempt goes
    /// on. Every other failure does.
    pub fn is_fatal(&self) -> (fatal: bool)
        ensures
            fatal == !self.concerns_certificates(),
    {
        match self {
            SetupFailure::TrustAnchors => false,
            SetupFailure::CertificateChain => false,
            SetupFailure::PrivateKey => false,
            _ => true,
        }
    }
}

} // verus!
