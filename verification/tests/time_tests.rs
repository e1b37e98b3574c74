//! Calendar and wall-clock behaviour on concrete values.

use netclock::calendar::{datetime_to_unix, days_from_civil, civil_from_days, is_leap_year,
    unix_to_datetime, CivilDateTime};
use netclock::clock::{Timestamp, WallClock};

#[test]
fn calendar_test_leap_year() {
    assert!(is_leap_year(2000));
    assert!(is_leap_year(2024));
    assert!(!is_leap_year(1900));
    assert!(!is_leap_year(2023));
    assert!(!is_leap_year(2100));
}

#[test]
fn time_test_leap_year() {
    assert!(is_leap_year(2000));
    assert!(is_leap_year(2024));
    assert!(!is_leap_year(1900));
    assert!(!is_leap_year(2023));
}

#[test]
fn mod_test_leap_year() {
    assert!(is_leap_year(2000));
    assert!(is_leap_year(2024));
    assert!(!is_leap_year(1900));
    assert!(!is_leap_year(2023));
}

#[test]
fn test_unix_epoch() {
    let dt = unix_to_datetime(0);
    assert_eq!(dt.year, 1970);
    assert_eq!(dt.month, 1);
    assert_eq!(dt.day, 1);
    assert_eq!(dt.hour, 0);
    assert_eq!(dt.minute, 0);
    assert_eq!(dt.second, 0);
}

#[test]
fn test_round_trip_conversion() {
    let test_dates = [
        0u64,       // 1970-01-01 00:00:00
        946684800,  // 2000-01-01 00:00:00
        1609459200, // 2021-01-01 00:00:00
        1704067200, // 2024-01-01 00:00:00
        2147483647, // 2038-01-19 03:14:07 (32-bit Unix time limit)
        4102444800, // 2100-01-01 00:00:00
    ];

    for &unix_secs in &test_dates {
        let dt = unix_to_datetime(unix_secs);
        let converted_back = datetime_to_unix(dt);
        assert_eq!(
            unix_secs, converted_back,
            "Round trip failed for timestamp {}",
            unix_secs
        );
    }
}

#[test]
fn test_leap_day_2024() {
    // 2024-02-29 00:00:00 (leap day)
    let leap_day = datetime_to_unix(CivilDateTime {
        year: 2024,
        month: 2,
        day: 29,
        hour: 0,
        minute: 0,
        second: 0,
    });
    let dt = unix_to_datetime(leap_day);
    assert_eq!(dt.year, 2024);
    assert_eq!(dt.month, 2);
    assert_eq!(dt.day, 29);
}

#[test]
fn test_end_of_century() {
    // 1999-12-31 23:59:59
    let dt = CivilDateTime { year: 1999, month: 12, day: 31, hour: 23, minute: 59, second: 59 };
    let unix_secs = datetime_to_unix(dt);
    let converted = unix_to_datetime(unix_secs);
    assert_eq!(converted.year, 1999);
    assert_eq!(converted.month, 12);
    assert_eq!(converted.day, 31);
    assert_eq!(converted.hour, 23);
    assert_eq!(converted.minute, 59);
    assert_eq!(converted.second, 59);
}

#[test]
fn test_known_civil_instants() {
    let dt = unix_to_datetime(946684800);
    assert_eq!((dt.year, dt.month, dt.day), (2000, 1, 1));
    assert_eq!((dt.hour, dt.minute, dt.second), (0, 0, 0));
    assert_eq!(days_from_civil(1970, 1, 1), 0);
    assert_eq!(days_from_civil(2000, 1, 1), 10957);
    assert_eq!(civil_from_days(10957), (2000, 1, 1));
}

#[test]
fn time_test_ntp_to_unix_conversion() {
    const NTP_UNIX_OFFSET: u64 = 2_208_988_800;
    let ts = Timestamp::from_ntp(NTP_UNIX_OFFSET, 0);
    assert_eq!(ts.unix_secs, 0);
    assert_eq!(ts.micros, 0);
}

#[test]
fn mod_test_ntp_to_unix_conversion() {
    let ts = Timestamp::from_ntp(2208988800, 0);
    assert_eq!(ts.unix_secs, 0);
    assert_eq!(ts.micros, 0);
}

#[test]
fn rtc_test_ntp_to_unix_conversion() {
    const NTP_UNIX_OFFSET: u64 = 2_208_988_800;
    let ts = Timestamp::from_ntp(NTP_UNIX_OFFSET, 0);
    assert_eq!(ts.unix_secs, 0);
    assert_eq!(ts.micros, 0);
}

#[test]
fn test_timestamp_from_datetime() {
    let dt = CivilDateTime { year: 2024, month: 1, day: 1, hour: 0, minute: 0, second: 0 };
    let ts = Timestamp::from_datetime(dt, 123);
    assert_eq!(ts.unix_secs, 1704067200);
    assert_eq!(ts.micros, 123);
}

#[test]
fn test_timestamp_creation() {
    let ts = Timestamp::new(1704067200, 500000);
    assert_eq!(ts.unix_secs, 1704067200);
    assert_eq!(ts.micros, 500000);
}

#[test]
fn test_ntp_fraction_to_micros() {
    // A fraction of 2^31 is exactly half a second.
    let ts = Timestamp::from_ntp(2208988800 + 5, 0x8000_0000);
    assert_eq!(ts.unix_secs, 5);
    assert_eq!(ts.micros, 500000);
    // Counts before the Unix epoch saturate to zero.
    let early = Timestamp::from_ntp(100, 0);
    assert_eq!(early.unix_secs, 0);
}

#[test]
fn test_wallclock_starts_unsynced() {
    let clock = WallClock::new();
    assert!(!clock.is_wallclock_calibrated());
    assert!(!clock.is_time_synced());
    // The sentinel, not the epoch.
    assert_eq!(clock.now_unix_time(123456), (0, 0));
    let ts = clock.get_timestamp(123456);
    assert_eq!((ts.unix_secs, ts.micros), (0, 0));
}

#[test]
fn test_wallclock_calibrate_and_read() {
    let mut clock = WallClock::new();
    clock.calibrate_wallclock(1700000000u64 as u32, 250000, 1000);
    assert!(clock.is_wallclock_calibrated());
    // 2.5 seconds later the sub-second field has carried into seconds.
    let (secs, micros) = clock.now_unix_time(1000 + 2_500_000);
    assert_eq!(secs, (1700000000u64 as u32).wrapping_add(2));
    assert_eq!(micros, 750000);
}

#[test]
fn test_wallclock_wraparound() {
    // The monotonic counter wrapped past the 32-bit boundary between the
    // calibration and the read: elapsed must be 196 microseconds.
    let mut clock = WallClock::new();
    clock.calibrate_wallclock(1000, 0, 4294967200);
    let (secs, micros) = clock.now_unix_time(100);
    assert_eq!(secs, 1000);
    assert_eq!(micros, 196);
}

#[test]
fn test_wallclock_synced_flag_is_sticky() {
    let mut clock = WallClock::new();
    clock.set_time_synced();
    assert!(clock.is_time_synced());
    clock.update_cached_timestamp(Timestamp::new(42, 7));
    let cached = clock.get_cached_timestamp();
    assert_eq!((cached.unix_secs, cached.micros), (42, 7));
    assert!(clock.is_time_synced());
}
