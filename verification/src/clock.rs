//! The authoritative wall-clock source: a timestamp value type and a
//! calibration record that anchors a free-running monotonic microsecond
//! counter to absolute Unix time.
//!
//! The monotonic counter is narrower than the time between calibrations can
//! be, so elapsed time is always computed with wraparound-safe subtraction.
//! Once a clock has been calibrated it never reports itself unsynchronized
//! again, even if a later synchronization attempt fails.

use vstd::prelude::*;

verus! {

use vstd::arithmetic::power2::pow2;
use crate::calendar::{datetime_to_unix, datetime_to_unix_spec, valid_datetime, CivilDateTime};

/// Seconds between the time-sync protocol epoch (1900-01-01) and the Unix
/// epoch (1970-01-01).
pub const NTP_UNIX_OFFSET: u64 = 2208988800;

/// Microseconds in one second.
pub const MICROS_PER_SEC: u32 = 1000000;

/// An absolute instant: Unix seconds plus a sub-second microsecond field.
#[derive(Debug, Clone, Copy, PartialEq, Eq, Structural)]
pub struct Timestamp {
    /// Seconds since 1970-01-01 00:00:00 UTC.
    pub unix_secs: u64,
    /// Microseconds within the second (0..=999999).
    pub micros: u32,
}

/// Microseconds encoded by a protocol binary fraction in 2^-32 second units.
pub open spec fn ntp_frac_to_micros(frac: int) -> int {
    frac * 1000000 / 0x100000000
}

/// Unix seconds of a protocol second count: the fixed epoch offset is
/// removed, saturating at zero for counts before the Unix epoch.
pub open spec fn ntp_secs_to_unix(ntp_secs: int) -> int {
    if ntp_secs >= NTP_UNIX_OFFSET {
        ntp_secs - NTP_UNIX_OFFSET
    } else {
        0
    }
}

impl Timestamp {
    /// Pack the two fields.
    pub fn new(unix_secs: u64, micros: u32) -> (r: Timestamp)
        ensures
            r.unix_secs == unix_secs,
            r.micros == micros,
    {
        Timestamp { unix_secs, micros }
    }

    /// Convert a protocol timestamp (seconds since 1900-01-01 plus a binary
    /// fraction in 2^-32 units) to Unix seconds and microseconds.
    pub fn from_ntp(ntp_secs: u64, ntp_frac: u32) -> (r: Timestamp)
        ensures
            r.unix_secs == ntp_secs_to_unix(ntp_secs as int),
            r.micros == ntp_frac_to_micros(ntp_frac as int),
            r.micros < MICROS_PER_SEC,
    {
        let unix_secs: u64 = if ntp_secs >= NTP_UNIX_OFFSET {
            ntp_secs - NTP_UNIX_OFFSET
        } else {
            0
        };
        let scaled: u64 = (ntp_frac as u64) * 1000000;
        let micros: u32 = (scaled >> 32) as u32;
        proof {
            vstd::bits::lemma_u64_shr_is_div(scaled, 32);
            assert(scaled >> 32 == scaled as int / 0x100000000) by {
                assert(pow2(32) == 0x100000000) by {
                    vstd::arithmetic::power2::lemma2_to64();
                }
            }
            assert(scaled as int / 0x100000000 < 1000000) by {
                vstd::arithmetic::div_mod::lemma_multiply_divide_lt(
                    scaled as int,
                    0x100000000,
                    1000000,
                );
            }
        }
        Timestamp { unix_secs, micros }
    }

    /// Convert a civil instant read back from the backup clock, together
    /// with its sub-second counter, into a timestamp.
    pub fn from_datetime(dt: CivilDateTime, micros: u32) -> (r: Timestamp)
        requires
            valid_datetime(dt),
            micros < MICROS_PER_SEC,
        ensures
            r.unix_secs == datetime_to_unix_spec(dt),
            r.micros == micros,
    {
        Timestamp { unix_secs: datetime_to_unix(dt), micros }
    }
}

/// The process-wide calibration record: the Unix time captured at the last
/// successful synchronization together with the monotonic counter value read
/// at that same instant, plus the sticky synchronized flag.
#[derive(Debug, Clone, Copy, PartialEq, Eq, Structural)]
pub struct WallClock {
    /// Unix seconds captured at the last calibration.
    pub base_unix_secs: u32,
    /// Microseconds within the second at the last calibration.
    pub base_micros: u32,
    /// Monotonic counter value read at the calibration instant.
    pub base_mono_micros: u32,
    /// Sticky flag: set by the first calibration, never cleared.  The three
    /// base fields must only ever be written together, by the sync path.
    pub synced: bool,
    /// Last timestamp read back from the backup clock, kept for cheap
    /// access by logging paths.
    pub cached: Timestamp,
}

/// What reading the clock at monotonic counter value `current` yields:
/// the sentinel (0, 0) while unsynchronized, else the base time advanced by
/// the wraparound-safe elapsed count, with carry on sub-second overflow.
pub open spec fn now_spec(c: WallClock, current: u32) -> (int, int) {
    if !c.synced {
        (0, 0)
    } else {
        let elapsed = vstd::wrapping::u32_specs::wrapping_sub(current, c.base_mono_micros) as int;
        let total_micros = c.base_micros + elapsed % 1000000;
        (
            (c.base_unix_secs + elapsed / 1000000 + total_micros / 1000000) % 0x100000000,
            total_micros % 1000000,
        )
    }
}

impl WallClock {
    /// A calibration is well formed when its sub-second field is in range.
    pub open spec fn wf(self) -> bool {
        self.base_micros < MICROS_PER_SEC
    }

    /// Whether the clock has been calibrated at least once.
    pub open spec fn spec_synced(self) -> bool {
        self.synced
    }

    /// The clock starts unsynchronized; readers must treat the (0, 0)
    /// sentinel as "unknown", never as the epoch.
    pub fn new() -> (r: WallClock)
        ensures
            !r.spec_synced(),
            r.wf(),
    {
        WallClock {
            base_unix_secs: 0,
            base_micros: 0,
            base_mono_micros: 0,
            synced: false,
            cached: Timestamp { unix_secs: 0, micros: 0 },
        }
    }

    /// Store a calibration triple as a group and mark the clock synced.
    /// Only the synchronization path may call this (single-writer rule).
    pub fn calibrate_wallclock(&mut self, unix_secs: u32, unix_micros: u32, mono_micros: u32)
        requires
            unix_micros < MICROS_PER_SEC,
        ensures
            final(self).base_unix_secs == unix_secs,
            final(self).base_micros == unix_micros,
            final(self).base_mono_micros == mono_micros,
            final(self).spec_synced(),
            final(self).wf(),
            final(self).cached == old(self).cached,
    {
        self.base_unix_secs = unix_secs;
        self.base_micros = unix_micros;
        self.base_mono_micros = mono_micros;
        self.synced = true;
    }

    /// Whether the clock has been calibrated at least once.
    pub fn is_wallclock_calibrated(&self) -> (r: bool)
        ensures
            r == self.spec_synced(),
    {
        self.synced
    }

    /// Whether timestamps read from this clock are meaningful yet.
    pub fn is_time_synced(&self) -> (r: bool)
        ensures
            r == self.spec_synced(),
    {
        self.synced
    }

    /// Mark the clock synced without touching the calibration base; used by
    /// the path that restores time from the backup hardware clock.
    pub fn set_time_synced(&mut self)
        requires
            old(self).wf(),
        ensures
            final(self).spec_synced(),
            final(self).wf(),
            final(self).base_unix_secs == old(self).base_unix_secs,
            final(self).base_micros == old(self).base_micros,
            final(self).base_mono_micros == old(self).base_mono_micros,
            final(self).cached == old(self).cached,
    {
        self.synced = true;
    }

    /// Remember the timestamp last read from the backup clock.
    pub fn update_cached_timestamp(&mut self, ts: Timestamp)
        requires
            old(self).wf(),
        ensures
            final(self).wf(),
            final(self).cached == ts,
            final(self).base_unix_secs == old(self).base_unix_secs,
            final(self).base_micros == old(self).base_micros,
            final(self).base_mono_micros == old(self).base_mono_micros,
            final(self).synced == old(self).synced,
    {
        self.cached = ts;
    }

    /// The timestamp last read from the backup clock; zero until one has
    /// been read.
    pub fn get_cached_timestamp(&self) -> (r: Timestamp)
        ensures
            r == self.cached,
    {
        self.cached
    }

    /// Read the clock at the given monotonic counter value.  Returns the
    /// (0, 0) sentinel while unsynchronized.  The elapsed tick count is
    /// computed with wrapping subtraction, so a counter that wrapped past
    /// its width since calibration still yields the correct elapsed time.
    pub fn now_unix_time(&self, current_mono_micros: u32) -> (r: (u32, u32))
        requires
            self.wf(),
        ensures
            (r.0 as int, r.1 as int) == now_spec(*self, current_mono_micros),
            r.1 < MICROS_PER_SEC,
    {
        if !self.synced {
            return (0, 0);
        }
        let elapsed: u32 = current_mono_micros.wrapping_sub(self.base_mono_micros);
        let elapsed_secs: u32 = elapsed / 1000000;
        let elapsed_micros: u32 = elapsed % 1000000;
        let total_micros: u32 = self.base_micros + elapsed_micros;
        let carry: u32 = total_micros / 1000000;
        let out_micros: u32 = total_micros % 1000000;
        let out_secs: u32 = self.base_unix_secs.wrapping_add(elapsed_secs).wrapping_add(carry);
        proof {
            let e = elapsed as int;
            let b = self.base_unix_secs as int;
            assert(out_secs == (b + e / 1000000 + total_micros / 1000000) % 0x100000000) by {
                assert(e / 1000000 < 4295) by {
                    vstd::arithmetic::div_mod::lemma_multiply_divide_lt(e, 1000000, 4295);
                }
                let v = b + e / 1000000 + total_micros as int / 1000000;
                if v < 0x100000000 {
                    vstd::arithmetic::div_mod::lemma_small_mod(v as nat, 0x100000000);
                } else {
                    vstd::arithmetic::div_mod::lemma_mod_add_multiples_vanish(
                        v - 0x100000000,
                        0x100000000,
                    );
                    vstd::arithmetic::div_mod::lemma_small_mod(
                        (v - 0x100000000) as nat,
                        0x100000000,
                    );
                }
            }
        }
        (out_secs, out_micros)
    }

    /// Law: read at the very instant of calibration — before the monotonic
    /// counter has moved — a synced clock returns exactly the calibration
    /// time.
    pub proof fn lemma_now_at_calibration(self)
        requires
            self.wf(),
            self.spec_synced(),
        ensures
            now_spec(self, self.base_mono_micros) == (
                self.base_unix_secs as int,
                self.base_micros as int,
            ),
    {
        let b = self.base_micros as int;
        assert(0int % 1000000 == 0 && 0int / 1000000 == 0) by (nonlinear_arith);
        vstd::arithmetic::div_mod::lemma_small_mod(self.base_micros as nat, 1000000);
        assert(b / 1000000 == 0) by {
            vstd::arithmetic::div_mod::lemma_basic_div(b, 1000000);
        }
        vstd::arithmetic::div_mod::lemma_small_mod(self.base_unix_secs as nat, 0x100000000);
    }

    /// Read the clock as a `Timestamp`, with the same sentinel rule.
    pub fn get_timestamp(&self, current_mono_micros: u32) -> (r: Timestamp)
        requires
            self.wf(),
        ensures
            (r.unix_secs as int, r.micros as int) == now_spec(*self, current_mono_micros),
            r.micros < MICROS_PER_SEC,
    {
        let (secs, micros) = self.now_unix_time(current_mono_micros);
        Timestamp { unix_secs: secs as u64, micros }
    }
}

} // verus!
