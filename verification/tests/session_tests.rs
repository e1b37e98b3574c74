//! Session layer, secure transport, device identity and orchestrator
//! plumbing on concrete values.

use netclock::clock::Timestamp;
use netclock::device::DeviceId;
use netclock::mqtt::{format_mqtt_topic, format_telemetry_payload, u64_to_string, KeepAlive,
    MqttClient, MqttConfig, MqttError, QualityOfService};
use netclock::netcfg::{NetworkConfig, NetworkError, RtcError, UdpConfig};
use netclock::orchestrator::{format_frame_message, MessageChannel, NetworkMessage};
use netclock::sntp::SntpError;
use netclock::tls::{SecureSession, TlsBufferPool, TlsClientConfig, TlsConfig, TlsError};

#[test]
fn mqtt_test_default_config() {
    let config = MqttConfig::default();
    assert_eq!(config.broker_host, "192.168.1.1");
    assert_eq!(config.broker_port, 8883);
    assert_eq!(config.keep_alive_secs, 60);
    assert!(config.clean_start);
}

#[test]
fn test_format_mqtt_topic() {
    // Test telemetry topic
    let topic = format_mqtt_topic("stm32f405-test123", "telemetry").unwrap();
    assert_eq!(topic.as_str(), "device/stm32f405-test123/telemetry");

    // Test status topic
    let topic = format_mqtt_topic("stm32f405-test123", "status").unwrap();
    assert_eq!(topic.as_str(), "device/stm32f405-test123/status");

    // Test that topic length is within bounds
    assert!(topic.len() < 64);
}

#[test]
fn test_format_mqtt_topic_buffer_overflow() {
    let long_id = "this_is_a_very_long_client_id_that_exceeds_the_maximum_allowed_topic_length_for_mqtt_messages";
    let result = format_mqtt_topic(long_id, "telemetry");
    assert!(result.is_err());
    assert_eq!(result, Err(MqttError::BufferError));
}

#[test]
fn test_format_mqtt_topic_invalid_characters() {
    // Test that wildcard characters are rejected
    let result = format_mqtt_topic("client+wildcard", "telemetry");
    assert!(result.is_err());

    let result = format_mqtt_topic("client#wildcard", "telemetry");
    assert!(result.is_err());

    let result = format_mqtt_topic("valid-client", "status+wildcard");
    assert!(result.is_err());
}

#[test]
fn test_topic_null_byte_rejected() {
    assert_eq!(
        format_mqtt_topic("client\0id", "telemetry"),
        Err(MqttError::ProtocolError)
    );
    assert_eq!(
        format_mqtt_topic("client", "tele\0metry"),
        Err(MqttError::ProtocolError)
    );
}

#[test]
fn test_connect_options_keep_alive_sentinel() {
    let client = MqttClient::new(MqttConfig {
        keep_alive_secs: 0,
        ..MqttConfig::default()
    });
    let opts = client.build_connect_options();
    assert_eq!(opts.keep_alive, KeepAlive::Infinite);
    assert!(opts.end_session_on_disconnect);
    assert!(!opts.has_credentials);
    assert!(!opts.has_will);

    let client = MqttClient::new(MqttConfig::default());
    let opts = client.build_connect_options();
    assert_eq!(opts.keep_alive, KeepAlive::Seconds(60));
    assert!(opts.clean_start);
}

#[test]
fn test_prepare_publish_defaults() {
    let client = MqttClient::new(MqttConfig::default());
    let publication = client.prepare_publish("stm32f405-abc", "telemetry").unwrap();
    assert_eq!(publication.topic.as_str(), "device/stm32f405-abc/telemetry");
    assert_eq!(publication.qos, QualityOfService::AtMostOnce);
    assert!(!publication.retain);
    assert!(matches!(
        client.prepare_publish("bad+id", "telemetry"),
        Err(MqttError::ProtocolError)
    ));
}

#[test]
fn test_decimal_formatting() {
    assert_eq!(u64_to_string(0).as_str(), "0");
    assert_eq!(u64_to_string(7).as_str(), "7");
    assert_eq!(u64_to_string(12345).as_str(), "12345");
    assert_eq!(u64_to_string(u64::MAX).as_str(), "18446744073709551615");
}

#[test]
fn test_telemetry_payload_format() {
    let payload = format_telemetry_payload(3, Timestamp::new(1704067200, 500000));
    assert_eq!(
        payload.as_str(),
        "{\"msg_id\":3,\"timestamp\":1704067200,\"micros\":500000}"
    );
}

#[test]
fn tls_test_default_config() {
    let config = TlsClientConfig::default();
    assert_eq!(config.server_name, "broker.emqx.io");
    assert_eq!(config.server_port, 8883);
    assert!(!config.verify_server);
}

#[test]
fn test_direct_tls_default_config() {
    let config = TlsConfig::default();
    assert_eq!(config.server_name, "test.mosquitto.org");
    assert_eq!(config.server_port, 8883);
    assert!(!config.verify_server);
}

#[test]
fn test_tls_buffer_pool_is_single_use() {
    let mut pool = TlsBufferPool::new();
    assert!(!pool.is_in_use());
    let (read_buf, write_buf) = pool.tls_buffers().unwrap();
    assert_eq!(read_buf.len(), 18 * 1024);
    assert_eq!(write_buf.len(), 16 * 1024);
    // A second acquisition while the pair is out is refused.
    assert!(pool.tls_buffers().is_none());
    pool.release(read_buf, write_buf);
    assert!(pool.tls_buffers().is_some());
}

#[test]
fn test_secure_session_lifecycle() {
    let mut pool = TlsBufferPool::new();
    let session = SecureSession::establish(&mut pool).unwrap();
    // One session at a time: the pool refuses a second one.
    assert!(SecureSession::establish(&mut pool).is_none());
    session.teardown(&mut pool);
    // Torn down: the pair is available again.
    assert!(SecureSession::establish(&mut pool).is_some());
}

#[test]
fn test_client_id_format() {
    let id = DeviceId::new([
        0x01, 0x23, 0x45, 0x67, 0x89, 0xab, 0xcd, 0xef, 0x01, 0x23, 0x45, 0x67,
    ]);
    let hex = id.as_hex();
    assert_eq!(hex.len(), 24);
    assert_eq!(hex.as_str(), "0123456789abcdef01234567");
    let client_id = id.as_mqtt_client_id();
    assert_eq!(client_id.len(), "stm32f405-".len() + 24);
    assert!(client_id.starts_with("stm32f405-"));
    assert_eq!(client_id.as_str(), "stm32f405-0123456789abcdef01234567");
    // The generated identifier is always usable as a topic component.
    let topic = format_mqtt_topic(client_id.as_str(), "telemetry").unwrap();
    assert_eq!(
        topic.as_str(),
        "device/stm32f405-0123456789abcdef01234567/telemetry"
    );
}

#[test]
fn test_network_defaults() {
    let net = NetworkConfig::default();
    assert_eq!(net.mac_addr, [0x02, 0x00, 0x00, 0x12, 0x34, 0x56]);
    assert_eq!(net.seed, 0x12345678);
    let udp = UdpConfig::default();
    assert_eq!(udp.local_port, 0);
    assert_eq!(udp.rx_buffer_size, 256);
    assert_eq!(udp.tx_buffer_size, 256);
    assert_eq!(udp.packet_metadata_count, 4);
}

#[test]
fn test_error_conversions() {
    assert_eq!(
        NetworkError::from(TlsError::HandshakeFailed),
        NetworkError::Tls(TlsError::HandshakeFailed)
    );
    assert_eq!(
        NetworkError::from(MqttError::PublishFailed),
        NetworkError::Mqtt(MqttError::PublishFailed)
    );
    assert_eq!(
        NetworkError::from(SntpError::Timeout),
        NetworkError::Sntp(SntpError::Timeout)
    );
    assert_eq!(
        NetworkError::from(RtcError::NotSynced),
        NetworkError::RtcNotInitialized
    );
    assert_eq!(
        NetworkError::from(RtcError::HardwareError),
        NetworkError::RtcHardwareError
    );
}

#[test]
fn test_error_messages() {
    assert_eq!(NetworkError::Timeout.message(), "Request timeout");
    assert_eq!(NetworkError::DnsError.message(), "DNS resolution failed");
    assert_eq!(
        NetworkError::Mqtt(MqttError::BufferError).message(),
        "MQTT error"
    );
}

#[test]
fn test_frame_message_format() {
    // The zero sentinel means "unknown", never the epoch.
    let unsynced = format_frame_message(Timestamp::new(0, 0), 123456);
    assert_eq!(unsynced.as_str(), "Frame at 123456 us (clock not synced)");
    let synced = format_frame_message(Timestamp::new(1700000000, 5), 123456);
    assert_eq!(synced.as_str(), "Frame at 1700000000 UTC");
}

#[test]
fn test_message_channel_bounds_and_order() {
    let mut channel = MessageChannel::new();
    assert_eq!(channel.len(), 0);
    assert!(matches!(channel.recv(), None));
    for _ in 0..8 {
        assert!(channel.send(NetworkMessage::SntpSync));
    }
    // The ninth message is dropped: resync is best effort.
    assert!(!channel.send(NetworkMessage::LogFrame {
        data: String::from("dropped"),
    }));
    assert_eq!(channel.len(), 8);
    // First in, first out.
    assert!(matches!(channel.recv(), Some(NetworkMessage::SntpSync)));
    assert!(channel.send(NetworkMessage::LogFrame {
        data: String::from("frame"),
    }));
    let mut received = 1;
    while let Some(_msg) = channel.recv() {
        received += 1;
    }
    assert_eq!(received, 9);
    assert_eq!(channel.len(), 0);
}
