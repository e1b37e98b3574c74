//! Device identity: formatting of the factory-programmed 96-bit unique id
//! as a hex string and as the session client identifier.
//!
//! Reading the id out of the hardware is the caller's business; this module
//! takes the twelve raw bytes and owns every formatting rule, including the
//! guarantee that the generated client identifier is always a safe topic
//! component that fits its buffer.

use vstd::prelude::*;

verus! {

use vstd::string::*;
use crate::mqtt::{topic_char_ok, valid_topic_component, MAX_TOPIC_LEN, TOPIC_FRAME_LEN};

/// Width of the unique device id, in bytes.
pub const DEVICE_UID_LEN: usize = 12;

/// Length of the formatted client identifier: the 10-character board prefix
/// plus 24 hex digits.
pub const CLIENT_ID_LEN: usize = 34;

/// Lowercase hex digit character of a value below sixteen.
pub open spec fn hex_digit_char(d: int) -> char {
    if d == 0 {
        '0'
    } else if d == 1 {
        '1'
    } else if d == 2 {
        '2'
    } else if d == 3 {
        '3'
    } else if d == 4 {
        '4'
    } else if d == 5 {
        '5'
    } else if d == 6 {
        '6'
    } else if d == 7 {
        '7'
    } else if d == 8 {
        '8'
    } else if d == 9 {
        '9'
    } else if d == 10 {
        'a'
    } else if d == 11 {
        'b'
    } else if d == 12 {
        'c'
    } else if d == 13 {
        'd'
    } else if d == 14 {
        'e'
    } else {
        'f'
    }
}

/// Lowercase hex encoding of a byte sequence: two digits per byte, high
/// nibble first.
pub open spec fn hex_of(bytes: Seq<u8>) -> Seq<char> {
    Seq::new(
        2 * bytes.len(),
        |i: int|
            if i % 2 == 0 {
                hex_digit_char(bytes[i / 2] as int / 16)
            } else {
                hex_digit_char(bytes[i / 2] as int % 16)
            },
    )
}

/// The client identifier prescribed for a unique id.
pub open spec fn client_id_spec(uid: Seq<u8>) -> Seq<char> {
    "stm32f405-"@ + hex_of(uid)
}

/// The one-character string of a hex digit.
fn hex_digit_str(d: u8) -> (r: &'static str)
    requires
        d < 16,
    ensures
        r@ == seq![hex_digit_char(d as int)],
{
    let r: &'static str = if d == 0 {
        "0"
    } else if d == 1 {
        "1"
    } else if d == 2 {
        "2"
    } else if d == 3 {
        "3"
    } else if d == 4 {
        "4"
    } else if d == 5 {
        "5"
    } else if d == 6 {
        "6"
    } else if d == 7 {
        "7"
    } else if d == 8 {
        "8"
    } else if d == 9 {
        "9"
    } else if d == 10 {
        "a"
    } else if d == 11 {
        "b"
    } else if d == 12 {
        "c"
    } else if d == 13 {
        "d"
    } else if d == 14 {
        "e"
    } else {
        "f"
    };
    proof {
        reveal_strlit("0");
        reveal_strlit("1");
        reveal_strlit("2");
        reveal_strlit("3");
        reveal_strlit("4");
        reveal_strlit("5");
        reveal_strlit("6");
        reveal_strlit("7");
        reveal_strlit("8");
        reveal_strlit("9");
        reveal_strlit("a");
        reveal_strlit("b");
        reveal_strlit("c");
        reveal_strlit("d");
        reveal_strlit("e");
        reveal_strlit("f");
        assert(r@ =~= seq![hex_digit_char(d as int)]);
    }
    r
}

/// Hex-encode a byte sequence, two lowercase digits per byte.
pub fn bytes_to_hex(bytes: &Vec<u8>) -> (r: String)
    ensures
        r@ == hex_of(bytes@),
        r@.len() == 2 * bytes@.len(),
{
    let n: usize = bytes.len();
    let mut s = String::new();
    let mut i: usize = 0;
    while i < n
        invariant
            0 <= i <= n,
            n == bytes@.len(),
            s@ =~= hex_of(bytes@.take(i as int)),
            s@.len() == 2 * i,
        decreases n - i,
    {
        let b = bytes[i];
        s.append(hex_digit_str(b / 16));
        s.append(hex_digit_str(b % 16));
        proof {
            assert(s@ =~= hex_of(bytes@.take(i + 1)));
        }
        i = i + 1;
    }
    proof {
        assert(bytes@.take(n as int) =~= bytes@);
    }
    s
}

/// The stable per-device identifier, as its raw bytes.
#[derive(Debug, Clone, Copy)]
pub struct DeviceId {
    /// The 96-bit factory-programmed unique id.
    pub uid: [u8; 12],
}

impl DeviceId {
    /// Wrap the raw id bytes read from the hardware.
    pub fn new(uid: [u8; 12]) -> (r: DeviceId)
        ensures
            r.uid@ == uid@,
    {
        DeviceId { uid }
    }

    /// The id as 24 lowercase hex digits.
    pub fn as_hex(&self) -> (r: String)
        ensures
            r@ == hex_of(self.uid@),
            r@.len() == 24,
    {
        let mut bytes: Vec<u8> = Vec::new();
        let mut i: usize = 0;
        while i < 12
            invariant
                0 <= i <= 12,
                bytes@ =~= self.uid@.take(i as int),
            decreases 12 - i,
        {
            bytes.push(self.uid[i]);
            i = i + 1;
        }
        proof {
            assert(bytes@ =~= self.uid@);
        }
        bytes_to_hex(&bytes)
    }

    /// The session client identifier `stm32f405-{24 hex digits}`: exactly
    /// 34 characters, so it always fits its buffer by construction.
    pub fn as_mqtt_client_id(&self) -> (r: String)
        ensures
            r@ == client_id_spec(self.uid@),
            r@.len() == CLIENT_ID_LEN,
    {
        let mut s = String::from_str("stm32f405-");
        let hex = self.as_hex();
        s.append(hex.as_str());
        proof {
            reveal_strlit("stm32f405-");
        }
        s
    }
}

/// Law: the generated client identifier is always a valid topic component
/// (it can never carry a wildcard or a null byte), whatever the id bytes.
pub proof fn lemma_client_id_topic_safe(uid: Seq<u8>)
    ensures
        valid_topic_component(client_id_spec(uid)),
        client_id_spec(uid).len() == 10 + 2 * uid.len(),
{
    reveal_strlit("stm32f405-");
    let s = client_id_spec(uid);
    assert forall|i: int| 0 <= i < s.len() implies topic_char_ok(s[i]) by {
        if i >= 10 {
            let j = i - 10;
            assert(s[i] == hex_of(uid)[j]);
            let b = uid[j / 2];
            assert(b / 16 < 16 && b % 16 < 16);
        }
    }
}

/// Law: with a generated client identifier, a topic built from any valid
/// subtopic of at most 22 characters never exceeds the topic buffer, so
/// that path cannot fail — the fixed-format identifier is guaranteed to
/// fit by construction.
pub proof fn lemma_generated_id_topic_fits(uid: Seq<u8>, subtopic: Seq<char>)
    requires
        uid.len() == 12,
        valid_topic_component(subtopic),
        subtopic.len() <= 22,
    ensures
        valid_topic_component(client_id_spec(uid)),
        TOPIC_FRAME_LEN + client_id_spec(uid).len() + subtopic.len() <= MAX_TOPIC_LEN,
{
    lemma_client_id_topic_safe(uid);
}

} // verus!
