//! Time-sync protocol behaviour: request shape, reply validation, retry
//! schedule, and the full multi-server scenario.

use netclock::clock::{Timestamp, WallClock};
use netclock::sntp::{SntpClient, SntpConfig, SntpError, SyncSchedule};

/// A 48-byte reply with the given stratum and transmit timestamp.
fn make_reply(stratum: u8, tx_secs: u32, tx_frac: u32) -> Vec<u8> {
    let mut reply = vec![0u8; 48];
    reply[0] = 0x1C; // LI=0, VN=3, Mode=4 (server)
    reply[1] = stratum;
    reply[40..44].copy_from_slice(&tx_secs.to_be_bytes());
    reply[44..48].copy_from_slice(&tx_frac.to_be_bytes());
    reply
}

#[test]
fn test_request_shape() {
    let client = SntpClient::new();
    let packet = client.build_request();
    assert_eq!(packet.len(), 48);
    assert_eq!(packet[0], 0x1B);
    assert!(packet[1..].iter().all(|&b| b == 0));
}

#[test]
fn test_default_servers() {
    let config = SntpConfig::default();
    assert_eq!(config.servers.len(), 3);
    assert_eq!(config.servers[0], "pool.ntp.org");
    assert_eq!(config.servers[1], "time.google.com");
    assert_eq!(config.servers[2], "time.cloudflare.com");
    assert_eq!(config.timeout_ms, 5000);
    assert_eq!(config.retry_count, 3);
    assert_eq!(config.max_stratum, 3);
}

#[test]
fn test_reply_decoding() {
    let client = SntpClient::new();
    // 2208988800 is the Unix epoch in protocol seconds; +100 seconds, half
    // a second of fraction, no round trip.
    let reply = make_reply(2, 2208988900u64 as u32, 0x8000_0000);
    let ts = client.process_reply(&reply, true, 0).unwrap();
    assert_eq!(ts.unix_secs, 100);
    assert_eq!(ts.micros, 500000);
}

#[test]
fn test_rtt_correction_applied_and_clamped() {
    let client = SntpClient::new();
    let reply = make_reply(2, 2208988900u64 as u32, 0);
    // One second of round trip: half is added.
    let ts = client.process_reply(&reply, true, 1_000_000).unwrap();
    assert_eq!(ts.unix_secs, 100);
    assert_eq!(ts.micros, 500000);
    // An absurd round trip is clamped to one second of correction.
    let ts = client.process_reply(&reply, true, 60_000_000).unwrap();
    assert_eq!(ts.unix_secs, 101);
    assert_eq!(ts.micros, 0);
}

#[test]
fn test_correction_carries_into_seconds() {
    let client = SntpClient::new();
    let reply = make_reply(1, 2208988900u64 as u32, 0xC000_0000); // .75 s
    let ts = client.process_reply(&reply, true, 1_000_000).unwrap(); // +.5 s
    assert_eq!(ts.unix_secs, 101);
    assert_eq!(ts.micros, 250000);
}

#[test]
fn test_short_reply_rejected() {
    let client = SntpClient::new();
    let short = vec![0u8; 40];
    assert_eq!(
        client.process_reply(&short, true, 0),
        Err(SntpError::InvalidResponse)
    );
}

#[test]
fn test_wrong_source_rejected() {
    let client = SntpClient::new();
    let reply = make_reply(2, 2208988900u64 as u32, 0);
    assert_eq!(
        client.process_reply(&reply, false, 0),
        Err(SntpError::InvalidResponse)
    );
}

#[test]
fn test_stratum_rejection_leaves_clock_unchanged() {
    let client = SntpClient::new();
    let mut clock = WallClock::new();
    // Stratum 0: unsynchronized reference.
    let reply = make_reply(0, 2208988900u64 as u32, 0);
    let r = client.handle_attempt(&mut clock, Some(&reply), true, 0, 0);
    assert_eq!(r, Err(SntpError::InvalidStratum));
    assert!(!clock.is_wallclock_calibrated());
    // Stratum above the ceiling of 3.
    let reply = make_reply(4, 2208988900u64 as u32, 0);
    let r = client.handle_attempt(&mut clock, Some(&reply), true, 0, 0);
    assert_eq!(r, Err(SntpError::InvalidStratum));
    assert!(!clock.is_wallclock_calibrated());
    assert_eq!(clock.now_unix_time(77), (0, 0));
}

#[test]
fn test_timeout_leaves_clock_unchanged() {
    let client = SntpClient::new();
    let mut clock = WallClock::new();
    let r = client.handle_attempt(&mut clock, None, true, 0, 0);
    assert_eq!(r, Err(SntpError::Timeout));
    assert!(!clock.is_time_synced());
    assert_eq!(clock.now_unix_time(0), (0, 0));
}

#[test]
fn test_retry_schedule_order() {
    let mut sched = SyncSchedule::new(2, 3);
    let mut seen = Vec::new();
    while let Some(idx) = sched.current_server() {
        seen.push(idx);
        sched.record_failure();
    }
    assert_eq!(seen, vec![0, 0, 0, 1, 1, 1]);
}

#[test]
fn test_empty_schedule_is_exhausted() {
    let mut sched = SyncSchedule::new(0, 3);
    assert_eq!(sched.current_server(), None);
    sched = SyncSchedule::new(3, 0);
    assert_eq!(sched.current_server(), None);
}

#[test]
fn test_two_servers_down_third_answers() {
    // Two of three configured servers always time out; the third replies
    // with stratum 2 and a known transmit timestamp.  The sync must
    // succeed, write that instant (plus half the simulated round trip)
    // into the clock, and an immediate read must return it exactly.
    let client = SntpClient::new();
    let mut clock = WallClock::new();
    let mut sched = client.start_sync();
    let tx_unix: u64 = 1700000000;
    let tx_ntp: u32 = (tx_unix + 2208988800) as u32;
    let mono_at_receipt: u32 = 5000;
    let mut timeouts = 0;
    let mut outcome = Err(SntpError::AllServersFailed);
    while let Some(server_idx) = sched.current_server() {
        let reply = if server_idx < 2 {
            None
        } else {
            Some(make_reply(2, tx_ntp, 0))
        };
        match client.handle_attempt(
            &mut clock,
            reply.as_ref(),
            true,
            500000,
            mono_at_receipt,
        ) {
            Ok(ts) => {
                outcome = Ok(ts);
                break;
            }
            Err(e) => {
                if e == SntpError::Timeout {
                    timeouts += 1;
                }
                sched.record_failure();
            }
        }
    }
    // Three attempts against each of the two dead servers.
    assert_eq!(timeouts, 6);
    let ts = outcome.unwrap();
    assert_eq!(ts.unix_secs, tx_unix);
    assert_eq!(ts.micros, 250000); // half the 500 ms round trip
    assert!(clock.is_wallclock_calibrated());
    // An immediate read (no monotonic progress) returns the same instant.
    let (secs, micros) = clock.now_unix_time(mono_at_receipt);
    assert_eq!(secs as u64, tx_unix);
    assert_eq!(micros, 250000);
}

#[test]
fn test_all_servers_exhausted() {
    let client = SntpClient::new();
    let mut clock = WallClock::new();
    let mut sched = client.start_sync();
    let mut outcome = Err(SntpError::AllServersFailed);
    while let Some(_idx) = sched.current_server() {
        match client.handle_attempt(&mut clock, None, true, 0, 0) {
            Ok(ts) => {
                outcome = Ok(ts);
                break;
            }
            Err(_) => sched.record_failure(),
        }
    }
    assert_eq!(outcome, Err(SntpError::AllServersFailed));
    assert!(!clock.is_time_synced());
}
