//! Publish/subscribe session layer: connect options with the keep-alive
//! sentinel, topic construction and validation, and telemetry payload
//! formatting.
//!
//! Topics follow the convention `device/{client-id}/{subtopic}`.  Either
//! component is rejected if it carries a wildcard or a null byte, and the
//! concatenation is rejected if it exceeds the fixed topic capacity.

use vstd::prelude::*;

verus! {

use vstd::string::*;
use crate::clock::Timestamp;

/// Capacity of the topic buffer, in characters.
pub const MAX_TOPIC_LEN: usize = 64;

/// Characters of the fixed topic prefix and separator together
/// (`device/` plus the `/` before the subtopic).
pub const TOPIC_FRAME_LEN: usize = 8;

/// Errors of the session layer.
#[derive(Debug, Clone, Copy, PartialEq, Eq, Structural)]
pub enum MqttError {
    /// The broker refused or the transport failed during connect.
    ConnectionFailed,
    /// The send of a publish packet failed.
    PublishFailed,
    /// Malformed identifier or topic component.
    ProtocolError,
    /// The packet arena or topic buffer capacity was exceeded.
    BufferError,
}

/// Session client configuration.
pub struct MqttConfig {
    /// Broker hostname, used for resolution and server-name indication.
    pub broker_host: &'static str,
    /// Broker port.
    pub broker_port: u16,
    /// Keep-alive interval in seconds; 0 selects the "infinite" sentinel.
    pub keep_alive_secs: u16,
    /// Whether to start a fresh session on connect.
    pub clean_start: bool,
}

impl Default for MqttConfig {
    /// The stock configuration used for bring-up.
    fn default() -> (r: MqttConfig)
        ensures
            r.broker_host@ == "192.168.1.1"@,
            r.broker_port == 8883,
            r.keep_alive_secs == 60,
            r.clean_start,
    {
        MqttConfig {
            broker_host: "192.168.1.1",
            broker_port: 8883,
            keep_alive_secs: 60,
            clean_start: true,
        }
    }
}

/// Keep-alive setting of a session: a second count, or no bound at all.
#[derive(Debug, Clone, Copy, PartialEq, Eq, Structural)]
pub enum KeepAlive {
    /// No keep-alive bound.
    Infinite,
    /// Maximum silence in seconds.
    Seconds(u16),
}

/// Options of a connect request.  The base case carries no credentials and
/// no will message.
#[derive(Debug, Clone, Copy, PartialEq, Eq, Structural)]
pub struct SessionConnectOptions {
    /// End the session when the connection drops.
    pub end_session_on_disconnect: bool,
    /// Fresh-session flag.
    pub clean_start: bool,
    /// Keep-alive setting.
    pub keep_alive: KeepAlive,
    /// Whether credentials are attached.
    pub has_credentials: bool,
    /// Whether a will message is attached.
    pub has_will: bool,
}

/// Delivery-guarantee level of a publication.
#[derive(Debug, Clone, Copy, PartialEq, Eq, Structural)]
pub enum QualityOfService {
    /// Fire and forget: no acknowledgment bookkeeping.
    AtMostOnce,
    /// Acknowledged at least once.
    AtLeastOnce,
    /// Exactly-once handshake.
    ExactlyOnce,
}

/// Options of one publication.
#[derive(Debug)]
pub struct PublicationOptions {
    /// Whether the broker retains the message.
    pub retain: bool,
    /// Delivery-guarantee level.
    pub qos: QualityOfService,
    /// Full topic string.
    pub topic: String,
}

/// A character a topic component may carry: no wildcards, no null byte.
pub open spec fn topic_char_ok(c: char) -> bool {
    c != '+' && c != '#' && c != '\0'
}

/// A topic component is valid when every character of it is allowed.
pub open spec fn valid_topic_component(s: Seq<char>) -> bool {
    forall|i: int| 0 <= i < s.len() ==> topic_char_ok(s[i])
}

/// The topic the convention prescribes for a client and subtopic.
pub open spec fn topic_spec(client_id: Seq<char>, subtopic: Seq<char>) -> Seq<char> {
    "device/"@ + client_id + "/"@ + subtopic
}

/// Whether every character of a component is allowed.
fn component_ok(s: &str) -> (r: bool)
    ensures
        r == valid_topic_component(s@),
{
    let len: usize = s.unicode_len();
    let mut i: usize = 0;
    while i < len
        invariant
            0 <= i <= len,
            len == s@.len(),
            forall|j: int| 0 <= j < i ==> topic_char_ok(s@[j]),
        decreases len - i,
    {
        let c = s.get_char(i);
        if c == '+' || c == '#' || c == '\0' {
            return false;
        }
        i = i + 1;
    }
    true
}

/// Build the topic `device/{client_id}/{subtopic}`.  A component with a
/// wildcard or null byte is a protocol error; a concatenation longer than
/// the topic capacity is a buffer error; anything else yields exactly the
/// prescribed string.
pub fn format_mqtt_topic(client_id: &str, subtopic: &str) -> (r: Result<String, MqttError>)
    ensures
        !(valid_topic_component(client_id@) && valid_topic_component(subtopic@)) ==> r == Err::<
            String,
            MqttError,
        >(MqttError::ProtocolError),
        valid_topic_component(client_id@) && valid_topic_component(subtopic@) && TOPIC_FRAME_LEN
            + client_id@.len() + subtopic@.len() > MAX_TOPIC_LEN ==> r == Err::<String, MqttError>(
            MqttError::BufferError,
        ),
        valid_topic_component(client_id@) && valid_topic_component(subtopic@) && TOPIC_FRAME_LEN
            + client_id@.len() + subtopic@.len() <= MAX_TOPIC_LEN ==> (r matches Ok(t) && t@
            == topic_spec(client_id@, subtopic@)),
{
    if !component_ok(client_id) || !component_ok(subtopic) {
        return Err(MqttError::ProtocolError);
    }
    let id_len: usize = client_id.unicode_len();
    let sub_len: usize = subtopic.unicode_len();
    if id_len > MAX_TOPIC_LEN || sub_len > MAX_TOPIC_LEN || TOPIC_FRAME_LEN + id_len + sub_len
        > MAX_TOPIC_LEN {
        return Err(MqttError::BufferError);
    }
    let mut t = String::from_str("device/");
    t.append(client_id);
    t.append("/");
    t.append(subtopic);
    Ok(t)
}

/// The session client.
pub struct MqttClient {
    /// The active configuration.
    pub config: MqttConfig,
}

impl MqttClient {
    /// Client over the given configuration.
    pub fn new(config: MqttConfig) -> (r: MqttClient)
        ensures
            r.config.broker_host == config.broker_host,
            r.config.broker_port == config.broker_port,
            r.config.keep_alive_secs == config.keep_alive_secs,
            r.config.clean_start == config.clean_start,
    {
        MqttClient { config }
    }

    /// Connect options for this configuration: sessions end on disconnect,
    /// a requested keep-alive of zero becomes the "infinite" sentinel, and
    /// the base case carries no credentials and no will.
    pub fn build_connect_options(&self) -> (r: SessionConnectOptions)
        ensures
            r.end_session_on_disconnect,
            r.clean_start == self.config.clean_start,
            self.config.keep_alive_secs == 0 ==> r.keep_alive == KeepAlive::Infinite,
            self.config.keep_alive_secs != 0 ==> r.keep_alive == KeepAlive::Seconds(
                self.config.keep_alive_secs,
            ),
            !r.has_credentials,
            !r.has_will,
    {
        SessionConnectOptions {
            end_session_on_disconnect: true,
            clean_start: self.config.clean_start,
            keep_alive: if self.config.keep_alive_secs == 0 {
                KeepAlive::Infinite
            } else {
                KeepAlive::Seconds(self.config.keep_alive_secs)
            },
            has_credentials: false,
            has_will: false,
        }
    }

    /// Publication options for one telemetry message on the given topic:
    /// at-most-once delivery, not retained.
    pub fn prepare_publish(&self, client_id: &str, subtopic: &str) -> (r: Result<
        PublicationOptions,
        MqttError,
    >)
        ensures
            !(valid_topic_component(client_id@) && valid_topic_component(subtopic@)) ==> r
                == Err::<PublicationOptions, MqttError>(MqttError::ProtocolError),
            valid_topic_component(client_id@) && valid_topic_component(subtopic@)
                && TOPIC_FRAME_LEN + client_id@.len() + subtopic@.len() > MAX_TOPIC_LEN ==> r
                == Err::<PublicationOptions, MqttError>(MqttError::BufferError),
            valid_topic_component(client_id@) && valid_topic_component(subtopic@)
                && TOPIC_FRAME_LEN + client_id@.len() + subtopic@.len() <= MAX_TOPIC_LEN ==> (
            r matches Ok(p) && p.topic@ == topic_spec(client_id@, subtopic@) && p.qos
                == QualityOfService::AtMostOnce && !p.retain),
    {
        match format_mqtt_topic(client_id, subtopic) {
            Err(e) => Err(e),
            Ok(topic) => Ok(
                PublicationOptions { retain: false, qos: QualityOfService::AtMostOnce, topic },
            ),
        }
    }
}

/// Decimal digit character of a value below ten.
pub open spec fn digit_char(d: int) -> char {
    if d == 0 {
        '0'
    } else if d == 1 {
        '1'
    } else if d == 2 {
        '2'
    } else if d == 3 {
        '3'
    } else if d == 4 {
        '4'
    } else if d == 5 {
        '5'
    } else if d == 6 {
        '6'
    } else if d == 7 {
        '7'
    } else if d == 8 {
        '8'
    } else {
        '9'
    }
}

/// Decimal representation of a non-negative number, most significant
/// digit first.
pub open spec fn dec_chars(n: int) -> Seq<char>
    decreases n,
{
    if n < 10 {
        seq![digit_char(n)]
    } else {
        dec_chars(n / 10) + seq![digit_char(n % 10)]
    }
}

/// The one-character string of a decimal digit.
fn digit_str(d: u64) -> (r: &'static str)
    requires
        d < 10,
    ensures
        r@ == seq![digit_char(d as int)],
{
    let r: &'static str = if d == 0 {
        "0"
    } else if d == 1 {
        "1"
    } else if d == 2 {
        "2"
    } else if d == 3 {
        "3"
    } else if d == 4 {
        "4"
    } else if d == 5 {
        "5"
    } else if d == 6 {
        "6"
    } else if d == 7 {
        "7"
    } else if d == 8 {
        "8"
    } else {
        "9"
    };
    proof {
        reveal_strlit("0");
        reveal_strlit("1");
        reveal_strlit("2");
        reveal_strlit("3");
        reveal_strlit("4");
        reveal_strlit("5");
        reveal_strlit("6");
        reveal_strlit("7");
        reveal_strlit("8");
        reveal_strlit("9");
        assert(r@ =~= seq![digit_char(d as int)]);
    }
    r
}

/// Decimal string of a number.
pub fn u64_to_string(n: u64) -> (r: String)
    ensures
        r@ == dec_chars(n as int),
    decreases n,
{
    if n < 10 {
        String::from_str(digit_str(n))
    } else {
        let mut s = u64_to_string(n / 10);
        s.append(digit_str(n % 10));
        s
    }
}

/// The telemetry payload text for one message.
pub open spec fn telemetry_payload_spec(msg_id: int, ts: Timestamp) -> Seq<char> {
    "{\"msg_id\":"@ + dec_chars(msg_id) + ",\"timestamp\":"@ + dec_chars(ts.unix_secs as int)
        + ",\"micros\":"@ + dec_chars(ts.micros as int) + "}"@
}

/// Format the telemetry payload `{"msg_id":N,"timestamp":S,"micros":M}`.
pub fn format_telemetry_payload(msg_id: u32, ts: Timestamp) -> (r: String)
    ensures
        r@ == telemetry_payload_spec(msg_id as int, ts),
{
    let mut s = String::from_str("{\"msg_id\":");
    let id_str = u64_to_string(msg_id as u64);
    s.append(id_str.as_str());
    s.append(",\"timestamp\":");
    let secs_str = u64_to_string(ts.unix_secs);
    s.append(secs_str.as_str());
    s.append(",\"micros\":");
    let micros_str = u64_to_string(ts.micros as u64);
    s.append(micros_str.as_str());
    s.append("}");
    s
}

} // verus!
