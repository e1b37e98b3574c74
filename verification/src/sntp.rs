//! Time-synchronization protocol client: request construction, reply
//! validation, round-trip correction, and the multi-server retry schedule.
//!
//! The network itself (resolver, datagram socket, timeout race) lives with
//! the caller; this module holds every decision the protocol makes, so each
//! attempt outcome is fed back in as a plain value and handled under an
//! exact contract.

use vstd::prelude::*;

verus! {

use crate::clock::{Timestamp, WallClock, ntp_frac_to_micros, ntp_secs_to_unix, MICROS_PER_SEC};

/// Wire size of a protocol packet.
pub const SNTP_PACKET_LEN: usize = 48;

/// First packet byte of a client request: LI=0, VN=3, Mode=3 (client).
pub const SNTP_MODE_CLIENT: u8 = 0x1B;

/// Well-known datagram port of the time-sync exchange.
pub const SNTP_PORT: u16 = 123;

/// Ceiling on the half-round-trip correction, in microseconds: an abnormally
/// slow link must not corrupt the result unboundedly.
pub const MAX_CORRECTION_MICROS: u64 = 1000000;

/// Fixed delay between retries of one server, in milliseconds.
pub const SNTP_RETRY_BACKOFF_MS: u64 = 2000;

/// Interval between periodic re-synchronizations, in seconds (15 minutes).
pub const SNTP_RESYNC_INTERVAL_SECS: u64 = 900;

/// Errors of the synchronization procedure, by layer: transport, timeout,
/// malformed reply, untrustworthy server, and full exhaustion.
#[derive(Debug, Clone, Copy, PartialEq, Eq, Structural)]
pub enum SntpError {
    /// Network communication error (resolution, bind or send failure).
    NetworkError,
    /// No reply within the configured window.
    Timeout,
    /// Reply too short or from an unexpected source.
    InvalidResponse,
    /// Reply stratum 0 (unsynchronized reference) or above the ceiling.
    InvalidStratum,
    /// Every configured server was exhausted without a success.
    AllServersFailed,
}

/// Client configuration: ordered server list with fallback, per-request
/// timeout, retry count per server, and the highest trusted stratum.
pub struct SntpConfig {
    /// Servers to try, in order.
    pub servers: Vec<String>,
    /// Per-request timeout in milliseconds.
    pub timeout_ms: u64,
    /// Attempts per server before falling back to the next.
    pub retry_count: usize,
    /// Highest stratum accepted from a reply (1..=15).
    pub max_stratum: u8,
}

impl Default for SntpConfig {
    /// The stock configuration: three public servers, five-second timeout,
    /// three attempts each, stratum ceiling 3.
    fn default() -> (r: SntpConfig)
        ensures
            r.servers@.len() == 3,
            r.servers@[0]@ == "pool.ntp.org"@,
            r.servers@[1]@ == "time.google.com"@,
            r.servers@[2]@ == "time.cloudflare.com"@,
            r.timeout_ms == 5000,
            r.retry_count == 3,
            r.max_stratum == 3,
    {
        let mut servers: Vec<String> = Vec::new();
        servers.push(String::from_str("pool.ntp.org"));
        servers.push(String::from_str("time.google.com"));
        servers.push(String::from_str("time.cloudflare.com"));
        SntpConfig { servers, timeout_ms: 5000, retry_count: 3, max_stratum: 3 }
    }
}

/// Big-endian 32-bit word at offset `i` of a byte sequence.
pub open spec fn be32(s: Seq<u8>, i: int) -> int {
    s[i] * 0x1000000 + s[i + 1] * 0x10000 + s[i + 2] * 0x100 + s[i + 3]
}

/// Read a big-endian 32-bit word from a reply buffer.
fn read_be32(buf: &Vec<u8>, i: usize) -> (r: u32)
    requires
        i + 4 <= buf@.len(),
    ensures
        r == be32(buf@, i as int),
{
    let n: usize = buf.len();
    assert(i + 4 <= n);
    (buf[i] as u32) * 0x1000000 + (buf[i + 1] as u32) * 0x10000 + (buf[i + 2] as u32) * 0x100 + (
    buf[i + 3] as u32)
}

/// A reply is rejected outright when it is shorter than a full packet or
/// did not come from the resolved server address.
pub open spec fn reply_rejected(reply: Seq<u8>, source_matches: bool) -> bool {
    reply.len() < SNTP_PACKET_LEN || !source_matches
}

/// A stratum is untrustworthy when it is 0 (unsynchronized reference) or
/// above the configured ceiling.
pub open spec fn stratum_invalid(stratum: u8, max_stratum: u8) -> bool {
    stratum == 0 || stratum > max_stratum
}

/// The instant a valid reply encodes, after half-round-trip correction:
/// the correction is `rtt / 2` clamped to the ceiling, added to the
/// sub-second field with carry into seconds (seconds saturate at the top
/// of their range rather than wrap).
pub open spec fn corrected_instant(secs: int, micros: int, rtt_micros: int) -> (int, int) {
    let correction = if rtt_micros / 2 < MAX_CORRECTION_MICROS {
        rtt_micros / 2
    } else {
        MAX_CORRECTION_MICROS as int
    };
    let total = micros + correction;
    if total >= MICROS_PER_SEC {
        (if secs + 1 <= u64::MAX {
            secs + 1
        } else {
            u64::MAX as int
        }, total - MICROS_PER_SEC)
    } else {
        (secs, total)
    }
}

/// Seconds-and-microseconds pair that a full reply carries in its transmit
/// timestamp (bytes 40..48), converted to the Unix epoch and corrected for
/// half the measured round trip.
pub open spec fn reply_instant(reply: Seq<u8>, rtt_micros: int) -> (int, int) {
    corrected_instant(
        ntp_secs_to_unix(be32(reply, 40)),
        ntp_frac_to_micros(be32(reply, 44)),
        rtt_micros,
    )
}

/// Apply the half-round-trip correction to a decoded timestamp.
pub fn apply_rtt_correction(ts: Timestamp, rtt_micros: u64) -> (r: Timestamp)
    requires
        ts.micros < MICROS_PER_SEC,
    ensures
        (r.unix_secs as int, r.micros as int) == corrected_instant(
            ts.unix_secs as int,
            ts.micros as int,
            rtt_micros as int,
        ),
        r.micros < MICROS_PER_SEC,
{
    let half: u64 = rtt_micros / 2;
    let correction: u32 = if half < MAX_CORRECTION_MICROS {
        half as u32
    } else {
        MAX_CORRECTION_MICROS as u32
    };
    let total: u32 = ts.micros + correction;
    if total >= MICROS_PER_SEC {
        let secs: u64 = if ts.unix_secs < u64::MAX {
            ts.unix_secs + 1
        } else {
            u64::MAX
        };
        Timestamp { unix_secs: secs, micros: total - MICROS_PER_SEC }
    } else {
        Timestamp { unix_secs: ts.unix_secs, micros: total }
    }
}

/// The client: holds the configuration; every attempt outcome passes
/// through `process_reply` or `handle_attempt`.
pub struct SntpClient {
    /// The active configuration.
    pub config: SntpConfig,
}

impl SntpClient {
    /// Client with the stock configuration.
    pub fn new() -> (r: SntpClient)
        ensures
            r.config.servers@.len() == 3,
            r.config.servers@[0]@ == "pool.ntp.org"@,
            r.config.servers@[1]@ == "time.google.com"@,
            r.config.servers@[2]@ == "time.cloudflare.com"@,
            r.config.timeout_ms == 5000,
            r.config.retry_count == 3,
            r.config.max_stratum == 3,
    {
        SntpClient { config: Default::default() }
    }

    /// Client with a caller-supplied configuration.
    pub fn with_config(config: SntpConfig) -> (r: SntpClient)
        ensures
            r.config == config,
    {
        SntpClient { config }
    }
}

impl Default for SntpClient {
    /// Same as `SntpClient::new`.
    fn default() -> (r: SntpClient)
        ensures
            r.config.servers@.len() == 3,
            r.config.servers@[0]@ == "pool.ntp.org"@,
            r.config.servers@[1]@ == "time.google.com"@,
            r.config.servers@[2]@ == "time.cloudflare.com"@,
            r.config.timeout_ms == 5000,
            r.config.retry_count == 3,
            r.config.max_stratum == 3,
    {
        SntpClient::new()
    }
}

impl SntpClient {
    /// The 48-byte client request: mode byte first, all else zero.
    pub fn build_request(&self) -> (r: Vec<u8>)
        ensures
            r@.len() == SNTP_PACKET_LEN,
            r@[0] == SNTP_MODE_CLIENT,
            forall|i: int| 1 <= i < SNTP_PACKET_LEN ==> r@[i] == 0u8,
    {
        let mut p: Vec<u8> = Vec::new();
        p.push(SNTP_MODE_CLIENT);
        let mut i: usize = 1;
        while i < SNTP_PACKET_LEN
            invariant
                1 <= i <= SNTP_PACKET_LEN,
                p@.len() == i,
                p@[0] == SNTP_MODE_CLIENT,
                forall|j: int| 1 <= j < i ==> p@[j] == 0u8,
            decreases SNTP_PACKET_LEN - i,
        {
            p.push(0);
            i = i + 1;
        }
        p
    }

    /// Validate one reply and decode its instant.  Exactly the short or
    /// misdirected replies fail as invalid; exactly the strata outside
    /// [1, ceiling] fail as untrustworthy; any other reply yields the
    /// corrected transmit instant.
    pub fn process_reply(&self, reply: &Vec<u8>, source_matches: bool, rtt_micros: u64) -> (r:
        Result<Timestamp, SntpError>)
        ensures
            reply_rejected(reply@, source_matches) ==> r == Err::<Timestamp, SntpError>(
                SntpError::InvalidResponse,
            ),
            !reply_rejected(reply@, source_matches) && stratum_invalid(
                reply@[1],
                self.config.max_stratum,
            ) ==> r == Err::<Timestamp, SntpError>(SntpError::InvalidStratum),
            !reply_rejected(reply@, source_matches) && !stratum_invalid(
                reply@[1],
                self.config.max_stratum,
            ) ==> (r matches Ok(ts) && (ts.unix_secs as int, ts.micros as int) == reply_instant(
                reply@,
                rtt_micros as int,
            ) && ts.micros < MICROS_PER_SEC),
    {
        if reply.len() < SNTP_PACKET_LEN || !source_matches {
            return Err(SntpError::InvalidResponse);
        }
        let stratum: u8 = reply[1];
        if stratum == 0 || stratum > self.config.max_stratum {
            return Err(SntpError::InvalidStratum);
        }
        let tx_secs: u32 = read_be32(reply, 40);
        let tx_frac: u32 = read_be32(reply, 44);
        let decoded = Timestamp::from_ntp(tx_secs as u64, tx_frac);
        Ok(apply_rtt_correction(decoded, rtt_micros))
    }

    /// Handle the outcome of one attempt against the clock.  An absent
    /// reply is a timeout; a rejected reply fails as `process_reply` says;
    /// in every failure the clock is left exactly as it was.  A valid reply
    /// calibrates the clock with the decoded instant and the monotonic
    /// counter value captured on receipt, and marks it synced.
    pub fn handle_attempt(
        &self,
        clock: &mut WallClock,
        reply: Option<&Vec<u8>>,
        source_matches: bool,
        rtt_micros: u64,
        mono_now_micros: u32,
    ) -> (r: Result<Timestamp, SntpError>)
        requires
            old(clock).wf(),
        ensures
            r is Err ==> *final(clock) == *old(clock),
            reply is None ==> r == Err::<Timestamp, SntpError>(SntpError::Timeout),
            reply matches Some(buf) && reply_rejected(buf@, source_matches) ==> r == Err::<
                Timestamp,
                SntpError,
            >(SntpError::InvalidResponse),
            reply matches Some(buf) && !reply_rejected(buf@, source_matches) && stratum_invalid(
                buf@[1],
                self.config.max_stratum,
            ) ==> r == Err::<Timestamp, SntpError>(SntpError::InvalidStratum),
            reply matches Some(buf) ==> (!reply_rejected(buf@, source_matches) && !stratum_invalid(
                buf@[1],
                self.config.max_stratum,
            ) ==> (r matches Ok(ts) && {
                &&& (ts.unix_secs as int, ts.micros as int) == reply_instant(
                    buf@,
                    rtt_micros as int,
                )
                &&& final(clock).spec_synced()
                &&& final(clock).wf()
                &&& final(clock).base_unix_secs == ts.unix_secs as u32
                &&& final(clock).base_micros == ts.micros
                &&& final(clock).base_mono_micros == mono_now_micros
                &&& final(clock).cached == old(clock).cached
            })),
            old(clock).spec_synced() ==> final(clock).spec_synced(),
    {
        match reply {
            None => Err(SntpError::Timeout),
            Some(buf) => {
                match self.process_reply(buf, source_matches, rtt_micros) {
                    Err(e) => Err(e),
                    Ok(ts) => {
                        clock.calibrate_wallclock(
                            (ts.unix_secs as u32),
                            ts.micros,
                            mono_now_micros,
                        );
                        Ok(ts)
                    },
                }
            },
        }
    }

    /// Begin the retry schedule over this client's server list.
    pub fn start_sync(&self) -> (r: SyncSchedule)
        ensures
            r.wf(),
            r.server_count == self.config.servers@.len(),
            r.retry_count == self.config.retry_count,
            r.exhausted() <==> (self.config.servers@.len() == 0 || self.config.retry_count == 0),
            !r.exhausted() ==> r.server_idx == 0 && r.attempt == 0,
    {
        SyncSchedule::new(self.config.servers.len(), self.config.retry_count)
    }
}

/// The retry / fallback schedule: each server is tried in order, up to the
/// retry count, and the first success ends the whole procedure.  When every
/// server is exhausted the procedure reports a terminal failure.
#[derive(Debug, Clone, Copy, PartialEq, Eq, Structural)]
pub struct SyncSchedule {
    /// Number of configured servers.
    pub server_count: usize,
    /// Attempts allowed per server.
    pub retry_count: usize,
    /// Server currently being tried; `server_count` once exhausted.
    pub server_idx: usize,
    /// Attempts already failed against the current server.
    pub attempt: usize,
}

impl SyncSchedule {
    /// A schedule is well formed while its cursor is inside the plan.
    pub open spec fn wf(self) -> bool {
        &&& self.server_idx <= self.server_count
        &&& (self.server_idx < self.server_count ==> self.attempt < self.retry_count)
        &&& (self.server_idx == self.server_count ==> self.attempt == 0)
    }

    /// Whether every server has been exhausted.
    pub open spec fn exhausted(self) -> bool {
        self.server_idx == self.server_count
    }

    /// Attempts still to be made before the procedure terminally fails:
    /// the whole procedure makes at most servers times retries attempts.
    pub open spec fn remaining_attempts(self) -> int {
        (self.server_count - self.server_idx) * self.retry_count - self.attempt
    }

    /// Start at the first attempt of the first server; a plan with no
    /// servers or no attempts per server is exhausted from the outset.
    pub fn new(server_count: usize, retry_count: usize) -> (r: SyncSchedule)
        ensures
            r.wf(),
            r.server_count == server_count,
            r.retry_count == retry_count,
            r.exhausted() <==> (server_count == 0 || retry_count == 0),
            !r.exhausted() ==> r.server_idx == 0 && r.attempt == 0,
    {
        if retry_count == 0 {
            SyncSchedule { server_count, retry_count, server_idx: server_count, attempt: 0 }
        } else {
            SyncSchedule { server_count, retry_count, server_idx: 0, attempt: 0 }
        }
    }

    /// Index of the server the next attempt must address, or `None` once
    /// the procedure has terminally failed.
    pub fn current_server(&self) -> (r: Option<usize>)
        requires
            self.wf(),
        ensures
            self.exhausted() ==> r is None,
            !self.exhausted() ==> r == Some(self.server_idx) && self.server_idx
                < self.server_count,
    {
        if self.server_idx < self.server_count {
            Some(self.server_idx)
        } else {
            None
        }
    }

    /// Record a failed attempt: retry the same server while attempts
    /// remain, else fall back to the next server, else exhaust the plan.
    pub fn record_failure(&mut self)
        requires
            old(self).wf(),
            !old(self).exhausted(),
        ensures
            final(self).wf(),
            final(self).server_count == old(self).server_count,
            final(self).retry_count == old(self).retry_count,
            old(self).attempt + 1 < old(self).retry_count ==> (final(self).server_idx == old(self).server_idx
                && final(self).attempt == old(self).attempt + 1),
            (old(self).attempt + 1 >= old(self).retry_count && old(self).server_idx + 1 < old(self).server_count)
                ==> (final(self).server_idx == old(self).server_idx + 1 && final(self).attempt == 0),
            (old(self).attempt + 1 >= old(self).retry_count && old(self).server_idx + 1 >= old(self).server_count)
                ==> final(self).exhausted(),
            final(self).remaining_attempts() == old(self).remaining_attempts() - 1,
    {
        proof {
            let s = *self;
            let n = s.server_count as int;
            let i = s.server_idx as int;
            let k = s.retry_count as int;
            if s.attempt + 1 >= s.retry_count {
                assert((n - i) * k - (n - (i + 1)) * k == k) by (nonlinear_arith);
            }
        }
        if self.attempt + 1 < self.retry_count {
            self.attempt = self.attempt + 1;
        } else {
            self.attempt = 0;
            self.server_idx = self.server_idx + 1;
        }
    }
}

} // verus!
