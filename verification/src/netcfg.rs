//! Network-facing configuration records and the unified error taxonomy:
//! transport-level, protocol-level and resource-level failures, with the
//! conversions between the per-component errors and the common type.

use vstd::prelude::*;

verus! {

use crate::mqtt::MqttError;
use crate::sntp::SntpError;
use crate::tls::TlsError;

/// Errors of the backup hardware clock.
#[derive(Debug, Clone, Copy, PartialEq, Eq, Structural)]
pub enum RtcError {
    /// The clock is not initialized or time has not been synchronized.
    NotSynced,
    /// The clock hardware failed.
    HardwareError,
}

/// Errors of the datagram layer.
#[derive(Debug, Clone, Copy, PartialEq, Eq, Structural)]
pub enum UdpError {
    /// The socket could not bind its local port.
    BindFailed,
    /// The send failed.
    SendFailed,
    /// The receive failed.
    ReceiveFailed,
    /// No datagram arrived within the window.
    Timeout,
    /// The endpoint was invalid.
    InvalidEndpoint,
}

/// Datagram socket configuration.
pub struct UdpConfig {
    /// Local port to bind, 0 for an ephemeral port.
    pub local_port: u16,
    /// Receive buffer size in bytes.
    pub rx_buffer_size: usize,
    /// Transmit buffer size in bytes.
    pub tx_buffer_size: usize,
    /// Packet metadata entries per direction.
    pub packet_metadata_count: usize,
}

impl Default for UdpConfig {
    /// Ephemeral port and small symmetric buffers.
    fn default() -> (r: UdpConfig)
        ensures
            r.local_port == 0,
            r.rx_buffer_size == 256,
            r.tx_buffer_size == 256,
            r.packet_metadata_count == 4,
    {
        UdpConfig {
            local_port: 0,
            rx_buffer_size: 256,
            tx_buffer_size: 256,
            packet_metadata_count: 4,
        }
    }
}

/// Link-layer configuration of the node.
pub struct NetworkConfig {
    /// Hardware address of the Ethernet interface.
    pub mac_addr: [u8; 6],
    /// Seed handed to the protocol stack.
    pub seed: u64,
}

impl Default for NetworkConfig {
    /// The locally-administered address and fixed seed used for bring-up.
    fn default() -> (r: NetworkConfig)
        ensures
            r.mac_addr@ =~= seq![0x02u8, 0x00u8, 0x00u8, 0x12u8, 0x34u8, 0x56u8],
            r.seed == 0x12345678,
    {
        let r = NetworkConfig { mac_addr: [0x02, 0x00, 0x00, 0x12, 0x34, 0x56], seed: 0x12345678 };
        proof {
            assert(r.mac_addr@ =~= seq![0x02u8, 0x00u8, 0x00u8, 0x12u8, 0x34u8, 0x56u8]);
        }
        r
    }
}

/// The common error type of the network components: the shared transport
/// and clock failures, plus one carrier variant per component.
#[derive(Debug, Clone, Copy, PartialEq, Eq, Structural)]
pub enum NetworkError {
    /// Hostname resolution failed.
    DnsError,
    /// Socket bind or connect failed.
    SocketError,
    /// A network wait ran out.
    Timeout,
    /// The server reply was malformed.
    InvalidResponse,
    /// The server misbehaved.
    ServerError,
    /// Every configured server was exhausted.
    AllServersFailed,
    /// The backup clock is not initialized.
    RtcNotInitialized,
    /// The backup clock hardware failed.
    RtcHardwareError,
    /// A secure-transport failure.
    Tls(TlsError),
    /// A session-layer failure.
    Mqtt(MqttError),
    /// A time-synchronization failure.
    Sntp(SntpError),
}

impl From<TlsError> for NetworkError {
    /// Wrap a secure-transport failure.
    fn from(e: TlsError) -> (r: NetworkError) {
        NetworkError::Tls(e)
    }
}

impl vstd::std_specs::convert::FromSpecImpl<TlsError> for NetworkError {
    open spec fn obeys_from_spec() -> bool {
        true
    }

    open spec fn from_spec(e: TlsError) -> NetworkError {
        NetworkError::Tls(e)
    }
}

impl From<MqttError> for NetworkError {
    /// Wrap a session-layer failure.
    fn from(e: MqttError) -> (r: NetworkError) {
        NetworkError::Mqtt(e)
    }
}

impl vstd::std_specs::convert::FromSpecImpl<MqttError> for NetworkError {
    open spec fn obeys_from_spec() -> bool {
        true
    }

    open spec fn from_spec(e: MqttError) -> NetworkError {
        NetworkError::Mqtt(e)
    }
}

impl From<SntpError> for NetworkError {
    /// Wrap a time-synchronization failure.
    fn from(e: SntpError) -> (r: NetworkError) {
        NetworkError::Sntp(e)
    }
}

impl vstd::std_specs::convert::FromSpecImpl<SntpError> for NetworkError {
    open spec fn obeys_from_spec() -> bool {
        true
    }

    open spec fn from_spec(e: SntpError) -> NetworkError {
        NetworkError::Sntp(e)
    }
}

impl From<RtcError> for NetworkError {
    /// Lift a backup-clock failure to the common type.
    fn from(e: RtcError) -> (r: NetworkError) {
        match e {
            RtcError::NotSynced => NetworkError::RtcNotInitialized,
            RtcError::HardwareError => NetworkError::RtcHardwareError,
        }
    }
}

impl vstd::std_specs::convert::FromSpecImpl<RtcError> for NetworkError {
    open spec fn obeys_from_spec() -> bool {
        true
    }

    open spec fn from_spec(e: RtcError) -> NetworkError {
        match e {
            RtcError::NotSynced => NetworkError::RtcNotInitialized,
            RtcError::HardwareError => NetworkError::RtcHardwareError,
        }
    }
}

impl NetworkError {
    /// A short description of the failure, in words.
    pub fn message(&self) -> (r: &'static str)
        ensures
            *self == NetworkError::DnsError ==> r@ == "DNS resolution failed"@,
            *self == NetworkError::SocketError ==> r@ == "Socket error"@,
            *self == NetworkError::Timeout ==> r@ == "Request timeout"@,
            *self == NetworkError::InvalidResponse ==> r@ == "Invalid response"@,
            *self == NetworkError::ServerError ==> r@ == "Server error"@,
            *self == NetworkError::AllServersFailed ==> r@ == "All servers failed"@,
            *self == NetworkError::RtcNotInitialized ==> r@ == "RTC not initialized"@,
            *self == NetworkError::RtcHardwareError ==> r@ == "RTC hardware error"@,
            self is Tls ==> r@ == "TLS error"@,
            self is Mqtt ==> r@ == "MQTT error"@,
            self is Sntp ==> r@ == "SNTP error"@,
    {
        match self {
            NetworkError::DnsError => "DNS resolution failed",
            NetworkError::SocketError => "Socket error",
            NetworkError::Timeout => "Request timeout",
            NetworkError::InvalidResponse => "Invalid response",
            NetworkError::ServerError => "Server error",
            NetworkError::AllServersFailed => "All servers failed",
            NetworkError::RtcNotInitialized => "RTC not initialized",
            NetworkError::RtcHardwareError => "RTC hardware error",
            NetworkError::Tls(_) => "TLS error",
            NetworkError::Mqtt(_) => "MQTT error",
            NetworkError::Sntp(_) => "SNTP error",
        }
    }
}

} // verus!
