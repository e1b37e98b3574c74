//! Unix-seconds to civil-date conversion and back, in constant time.
//!
//! The conversions shift the epoch to March 1 so that the leap day falls at
//! the end of the shifted year, then decompose the day count into 400-year
//! eras, years of era and days of year.  The supported range is bounded by
//! the 16-bit year field: 1970-01-01 through 2105-12-31.  Day-of-week is
//! deliberately not computed.

use vstd::prelude::*;

verus! {

/// Highest day number (days since 1970-01-01) this module converts: 2105-12-31.
pub const MAX_EPOCH_DAY: u32 = 49672;

/// Highest Unix second this module converts: 2105-12-31 23:59:59 UTC.
pub const MAX_UNIX_SECS: u64 = 4291747199;

/// Gregorian leap rule: divisible by 4 and not by 100, unless divisible by 400.
pub open spec fn is_leap_year_spec(year: int) -> bool {
    (year % 4 == 0 && year % 100 != 0) || year % 400 == 0
}

/// Number of days of the year, by the leap rule.
pub open spec fn days_in_year(year: int) -> int {
    if is_leap_year_spec(year) {
        366
    } else {
        365
    }
}

/// Days from 1970-01-01 to the first day of `year` (negative before 1970).
pub open spec fn days_before_year(year: int) -> int
    decreases
            if year >= 1970 {
                year - 1970
            } else {
                1970 - year
            },
{
    if year > 1970 {
        days_before_year(year - 1) + days_in_year(year - 1)
    } else if year < 1970 {
        days_before_year(year + 1) - days_in_year(year)
    } else {
        0
    }
}

/// Length of `month` (1 = January) in `year`.
pub open spec fn days_in_month(year: int, month: int) -> int {
    if month == 2 {
        if is_leap_year_spec(year) {
            29
        } else {
            28
        }
    } else if month == 4 || month == 6 || month == 9 || month == 11 {
        30
    } else {
        31
    }
}

/// Days from the first of the year to the first day of `month`.
pub open spec fn days_before_month(year: int, month: int) -> int
    decreases month,
{
    if month <= 1 {
        0
    } else {
        days_before_month(year, month - 1) + days_in_month(year, month - 1)
    }
}

/// A civil date this module supports: within 1970..=2105 and within the month.
pub open spec fn valid_civil(year: int, month: int, day: int) -> bool {
    &&& 1970 <= year <= 2105
    &&& 1 <= month <= 12
    &&& 1 <= day <= days_in_month(year, month)
}

/// Days since 1970-01-01 of the civil date, counted month by month and year
/// by year: the primitive meaning both conversions are measured against.
pub open spec fn civil_to_days(year: int, month: int, day: int) -> int {
    days_before_year(year) + days_before_month(year, month) + day - 1
}

/// Leap-year test over the supported year width.
pub fn is_leap_year(year: u16) -> (r: bool)
    ensures
        r == is_leap_year_spec(year as int),
{
    (year % 4 == 0 && year % 100 != 0) || year % 400 == 0
}

/// Day number (relative to 1970-01-01) of March 1 of `year`, by the closed
/// era / year-of-era formula that both conversions are built on.
pub open spec fn march_start(year: int) -> int {
    let era = year / 400;
    let yoe = year % 400;
    era * 146097 + yoe * 365 + yoe / 4 - yoe / 100 - 719468
}

/// Stepping the dividend by one moves the quotient up exactly at multiples
/// of the divisor, and the remainder follows.
proof fn lemma_divmod_step(a: int, d: int)
    requires
        d > 0,
        a >= 0,
    ensures
        (a + 1) % d == if a % d == d - 1 {
            0int
        } else {
            a % d + 1
        },
        (a + 1) / d == if a % d == d - 1 {
            a / d + 1
        } else {
            a / d
        },
{
    vstd::arithmetic::div_mod::lemma_fundamental_div_mod(a, d);
    let q = a / d;
    let r = a % d;
    vstd::arithmetic::mul::lemma_mul_is_commutative(d, q);
    if r == d - 1 {
        vstd::arithmetic::mul::lemma_mul_is_distributive_add_other_way(d, q, 1);
        assert(a + 1 == (q + 1) * d + 0);
        vstd::arithmetic::div_mod::lemma_fundamental_div_mod_converse_div(a + 1, d, q + 1, 0);
        vstd::arithmetic::div_mod::lemma_fundamental_div_mod_converse_mod(a + 1, d, q + 1, 0);
    } else {
        assert(a + 1 == q * d + (r + 1));
        vstd::arithmetic::div_mod::lemma_fundamental_div_mod_converse_div(a + 1, d, q, r + 1);
        vstd::arithmetic::div_mod::lemma_fundamental_div_mod_converse_mod(a + 1, d, q, r + 1);
    }
}

/// March 1 of `year` falls 59 days plus a leap day after New Year, counted
/// from the recursive per-year sum: the bridge between the closed formula
/// and the primitive day count.
proof fn lemma_march_start(year: int)
    requires
        1970 <= year <= 2106,
    ensures
        march_start(year) == days_before_year(year) + 59 + if is_leap_year_spec(year) {
            1int
        } else {
            0int
        },
    decreases year,
{
    if year == 1970 {
        assert(march_start(1970) == 59);
    } else {
        lemma_march_start(year - 1);
        let p = year - 1;
        lemma_divmod_step(p, 400);
        let yoe = year % 400;
        vstd::arithmetic::div_mod::lemma_fundamental_div_mod(p, 400);
        vstd::arithmetic::div_mod::lemma_fundamental_div_mod(year, 400);
        if p % 400 == 399 {
            // crossing into a new 400-year era
            assert(yoe == 0);
            assert(year % 400 == 0 ==> year % 4 == 0 && year % 100 == 0) by {
                let e = year / 400;
                vstd::arithmetic::mul::lemma_mul_is_associative(4, 100, e);
                vstd::arithmetic::div_mod::lemma_mod_multiples_basic(100 * e, 4);
                vstd::arithmetic::mul::lemma_mul_is_associative(100, 4, e);
                vstd::arithmetic::div_mod::lemma_mod_multiples_basic(4 * e, 100);
            }
            assert(march_start(year) - march_start(p) == 146097 - (399 * 365 + 99 - 3));
        } else {
            // same era: the year of era steps by one
            lemma_divmod_step(yoe - 1, 4);
            lemma_divmod_step(yoe - 1, 100);
            // the leap rule for `year` is decided by its year of era
            let e = year / 400;
            assert(year == 400 * e + yoe);
            assert(year % 4 == yoe % 4) by {
                vstd::arithmetic::mul::lemma_mul_is_associative(4, 100, e);
                vstd::arithmetic::div_mod::lemma_mod_multiples_vanish(100 * e, yoe, 4);
            }
            assert(year % 100 == yoe % 100) by {
                vstd::arithmetic::mul::lemma_mul_is_associative(100, 4, e);
                vstd::arithmetic::div_mod::lemma_mod_multiples_vanish(4 * e, yoe, 100);
            }
            assert(yoe % 4 == 0 ==> (yoe - 1) % 4 == 3);
            assert(yoe % 100 == 0 ==> (yoe - 1) % 100 == 99);
            assert(yoe % 100 == 0 ==> yoe % 4 == 0) by {
                if yoe % 100 == 0 {
                    vstd::arithmetic::div_mod::lemma_fundamental_div_mod(yoe, 100);
                    let k = yoe / 100;
                    vstd::arithmetic::mul::lemma_mul_is_associative(4, 25, k);
                    vstd::arithmetic::div_mod::lemma_mod_multiples_basic(25 * k, 4);
                }
            }
        }
    }
}

/// The per-year sum grows by at least 365 days a year, so it is strictly
/// monotone in the year.
proof fn lemma_days_before_year_monotone(a: int, b: int)
    requires
        a <= b,
    ensures
        days_before_year(a) + 365 * (b - a) <= days_before_year(b),
    decreases b - a,
{
    if a < b {
        lemma_days_before_year_monotone(a, b - 1);
        assert(days_before_year(b) == days_before_year(b - 1) + days_in_year(b - 1));
    }
}

/// Shifted year for the March-based decomposition: January and February
/// belong to the previous shifted year.
pub open spec fn shift_year(year: int, month: int) -> int {
    if month <= 2 {
        year - 1
    } else {
        year
    }
}

/// Shifted month index: March is 0, February is 11.
pub open spec fn shift_month(month: int) -> int {
    if month <= 2 {
        month + 9
    } else {
        month - 3
    }
}

/// Days from March 1 to the first day of shifted month `ms`.
pub open spec fn month_shift_days(ms: int) -> int {
    (153 * ms + 2) / 5
}

/// The March-shifted closed formula counts exactly the same days as the
/// primitive month-by-month, year-by-year sum.
proof fn lemma_formula_eq(year: int, month: int, day: int)
    requires
        valid_civil(year, month, day),
    ensures
        march_start(shift_year(year, month)) + month_shift_days(shift_month(month)) + day - 1
            == civil_to_days(year, month, day),
{
    reveal_with_fuel(days_before_month, 13);
    if month <= 2 {
        if year == 1970 {
            assert(march_start(1969) == -306);
        } else {
            lemma_march_start(year - 1);
            assert(days_before_year(year) == days_before_year(year - 1) + days_in_year(year - 1));
        }
    } else {
        lemma_march_start(year);
    }
}

/// Day number since 1970-01-01 of a supported civil date, computed in
/// constant time by the era / year-of-era decomposition.
pub fn days_from_civil(year: u16, month: u8, day: u8) -> (r: u32)
    requires
        valid_civil(year as int, month as int, day as int),
    ensures
        r as int == civil_to_days(year as int, month as int, day as int),
        r <= MAX_EPOCH_DAY,
{
    let y: u32 = year as u32;
    let ys: u32 = if month <= 2 {
        y - 1
    } else {
        y
    };
    let ms: u32 = if month <= 2 {
        month as u32 + 9
    } else {
        month as u32 - 3
    };
    let era: u32 = ys / 400;
    let yoe: u32 = ys - era * 400;
    let doy: u32 = (153 * ms + 2) / 5 + day as u32 - 1;
    let doe: u32 = yoe * 365 + yoe / 4 - yoe / 100 + doy;
    proof {
        vstd::arithmetic::div_mod::lemma_fundamental_div_mod(ys as int, 400);
        assert(yoe == ys as int % 400);
        lemma_formula_eq(year as int, month as int, day as int);
        assert(era * 146097 + doe as int - 719468 == civil_to_days(
            year as int,
            month as int,
            day as int,
        ));
        assert(civil_to_days(year as int, month as int, day as int) >= 0) by {
            lemma_days_before_year_monotone(1970, year as int);
        }
        assert(civil_to_days(year as int, month as int, day as int) <= MAX_EPOCH_DAY) by {
            lemma_days_before_year_monotone(year as int + 1, 2106);
            lemma_march_start(2106);
            assert(days_before_year(2106) == 49673);
            assert(days_before_year(year as int + 1) == days_before_year(year as int)
                + days_in_year(year as int));
            reveal_with_fuel(days_before_month, 13);
        }
    }
    era * 146097 + doe - 719468
}

/// Day of era on which shifted year `k` of an era begins.
pub open spec fn era_year_start(k: int) -> int {
    365 * k + k / 4 - k / 100 + k / 400
}

/// Executable form of `era_year_start` for years within one era, where the
/// 400-year term vanishes.
fn year_start_of_era(k: u32) -> (r: u32)
    requires
        k <= 399,
    ensures
        r as int == era_year_start(k as int),
        r <= 145731,
{
    k * 365 + k / 4 - k / 100
}

/// Executable form of `month_shift_days`.
fn month_start(ms: u32) -> (r: u32)
    requires
        ms <= 12,
    ensures
        r as int == month_shift_days(ms as int),
        r <= 367,
{
    (153 * ms + 2) / 5
}

/// Civil date of a day number since 1970-01-01, in constant time: split the
/// shifted day count into era and day of era, estimate the year of era and
/// the month by the closed formulas, and settle each estimate into its
/// bracket before reading off the day.
pub fn civil_from_days(days: u32) -> (r: (u16, u8, u8))
    requires
        days <= MAX_EPOCH_DAY,
    ensures
        valid_civil(r.0 as int, r.1 as int, r.2 as int),
        civil_to_days(r.0 as int, r.1 as int, r.2 as int) == days,
{
    let z: u32 = days + 719468;
    let era: u32 = z / 146097;
    let doe: u32 = z - era * 146097;
    proof {
        vstd::arithmetic::div_mod::lemma_fundamental_div_mod(z as int, 146097);
        assert(doe == z as int % 146097);
        assert(4 <= era <= 5);
    }
    // year of era: closed-form estimate, settled into its bracket
    let mut yoe: u32 = (doe - doe / 1460 + doe / 36524 - doe / 146096) / 365;
    if yoe > 399 {
        yoe = 399;
    }
    while yoe > 0 && year_start_of_era(yoe) > doe
        invariant
            yoe <= 399,
        decreases yoe,
    {
        yoe = yoe - 1;
    }
    assert(era_year_start(yoe as int) <= doe);
    while yoe < 399 && year_start_of_era(yoe + 1) <= doe
        invariant
            yoe <= 399,
            era_year_start(yoe as int) <= doe,
        decreases 399 - yoe,
    {
        yoe = yoe + 1;
    }
    assert(yoe < 399 ==> doe < era_year_start(yoe as int + 1));
    assert(yoe == 399 ==> doe < era_year_start(400)) by {
        assert(era_year_start(400) == 146097);
    }
    let doy: u32 = doe - year_start_of_era(yoe);
    proof {
        lemma_divmod_step(yoe as int, 4);
        lemma_divmod_step(yoe as int, 100);
        lemma_divmod_step(yoe as int, 400);
        assert(doy <= 365);
    }
    // month: closed-form estimate, settled into its bracket
    let mut mp: u32 = (5 * doy + 2) / 153;
    if mp > 11 {
        mp = 11;
    }
    while mp > 0 && month_start(mp) > doy
        invariant
            mp <= 11,
        decreases mp,
    {
        mp = mp - 1;
    }
    assert(month_shift_days(mp as int) <= doy);
    while mp < 11 && month_start(mp + 1) <= doy
        invariant
            mp <= 11,
            month_shift_days(mp as int) <= doy,
        decreases 11 - mp,
    {
        mp = mp + 1;
    }
    assert(mp < 11 ==> doy < month_shift_days(mp as int + 1));
    let d: u32 = doy - month_start(mp) + 1;
    let m: u32 = if mp < 10 {
        mp + 3
    } else {
        mp - 9
    };
    let y: u32 = era * 400 + yoe + (if m <= 2 {
        1
    } else {
        0
    });
    proof {
        lemma_civil_from_days_post(
            days as int,
            era as int,
            doe as int,
            yoe as int,
            doy as int,
            mp as int,
            d as int,
            m as int,
            y as int,
        );
    }
    ((y as u16), (m as u8), (d as u8))
}

/// The pieces produced by `civil_from_days` form a supported civil date
/// whose primitive day count is the input day number.
proof fn lemma_civil_from_days_post(
    days: int,
    era: int,
    doe: int,
    yoe: int,
    doy: int,
    mp: int,
    d: int,
    m: int,
    y: int,
)
    requires
        0 <= days <= MAX_EPOCH_DAY,
        era == (days + 719468) / 146097,
        doe == days + 719468 - era * 146097,
        0 <= yoe <= 399,
        era_year_start(yoe) <= doe,
        yoe < 399 ==> doe < era_year_start(yoe + 1),
        doe < 146097,
        doy == doe - era_year_start(yoe),
        0 <= mp <= 11,
        month_shift_days(mp) <= doy,
        mp < 11 ==> doy < month_shift_days(mp + 1),
        d == doy - month_shift_days(mp) + 1,
        m == if mp < 10 {
            mp + 3
        } else {
            mp - 9
        },
        y == era * 400 + yoe + if m <= 2 {
            1int
        } else {
            0int
        },
    ensures
        valid_civil(y, m, d),
        civil_to_days(y, m, d) == days,
{
    let z = days + 719468;
    vstd::arithmetic::div_mod::lemma_fundamental_div_mod(z, 146097);
    // era is 4 or 5 over the supported range
    assert(4 <= era <= 5);
    // leap shape of the next shifted year, from the division steps
    lemma_divmod_step(yoe, 4);
    lemma_divmod_step(yoe, 100);
    lemma_divmod_step(yoe, 400);
    // the civil year y relates to yoe modulo 4, 100 and 400
    let ys = era * 400 + yoe;
    assert(ys / 400 == era && ys % 400 == yoe) by {
        vstd::arithmetic::div_mod::lemma_fundamental_div_mod_converse_div(ys, 400, era, yoe);
        vstd::arithmetic::div_mod::lemma_fundamental_div_mod_converse_mod(ys, 400, era, yoe);
    }
    assert(y % 4 == (yoe + if m <= 2 { 1int } else { 0int }) % 4 && y % 100 == (yoe + if m <= 2 {
        1int
    } else {
        0int
    }) % 100 && y % 400 == (yoe + if m <= 2 {
        1int
    } else {
        0int
    }) % 400) by {
        let off = if m <= 2 {
            1int
        } else {
            0int
        };
        vstd::arithmetic::mul::lemma_mul_is_associative(4, 100, era);
        vstd::arithmetic::div_mod::lemma_mod_multiples_vanish(100 * era, yoe + off, 4);
        vstd::arithmetic::mul::lemma_mul_is_associative(100, 4, era);
        vstd::arithmetic::div_mod::lemma_mod_multiples_vanish(4 * era, yoe + off, 100);
        vstd::arithmetic::div_mod::lemma_mod_multiples_vanish(era, yoe + off, 400);
    }
    if mp == 11 {
        lemma_divmod_step(yoe + 1, 4int);
    }
    // bounds of the settled year of era pin the civil year into range
    assert(1970 <= y <= 2105) by {
        if era == 4 {
            assert(doe >= 719468 - 4 * 146097);
            if yoe <= 368 {
                assert(era_year_start(yoe + 1) <= 365 * (yoe + 1) + (yoe + 1) / 4 + (yoe + 1)
                    / 400) by {
                    vstd::arithmetic::div_mod::lemma_div_is_ordered_by_denominator(yoe + 1, 100, 400);
                }
                assert(false);
            }
            if yoe == 369 {
                assert(doy >= 306);
                assert(mp >= 10);
            }
        } else {
            assert(doe <= 769140 - 5 * 146097);
            assert(365 * yoe <= era_year_start(yoe));
            assert(yoe <= 105);
            if yoe == 105 && mp >= 10 {
                assert(era_year_start(105) == 38350);
                assert(doy >= month_shift_days(10));
                assert(false);
            }
        }
    }
    // the day fits its month
    assert(1 <= m <= 12);
    assert(1 <= d <= days_in_month(y, m));
    // the closed formula undoes the decomposition exactly
    assert(shift_year(y, m) == ys && shift_month(m) == mp);
    assert(march_start(ys) == era * 146097 + 365 * yoe + yoe / 4 - yoe / 100 - 719468);
    assert(march_start(ys) + month_shift_days(mp) + d - 1 == days);
    lemma_formula_eq(y, m, d);
}

/// A civil calendar instant in UTC, as plain fields.  Day-of-week is not
/// part of the type: callers must not derive one from it.
#[derive(Debug, Clone, Copy, PartialEq, Eq, Structural)]
pub struct CivilDateTime {
    pub year: u16,
    pub month: u8,
    pub day: u8,
    pub hour: u8,
    pub minute: u8,
    pub second: u8,
}

/// A civil instant this module supports.
pub open spec fn valid_datetime(dt: CivilDateTime) -> bool {
    &&& valid_civil(dt.year as int, dt.month as int, dt.day as int)
    &&& dt.hour <= 23
    &&& dt.minute <= 59
    &&& dt.second <= 59
}

/// Unix seconds of a civil instant, from the primitive day count.
pub open spec fn datetime_to_unix_spec(dt: CivilDateTime) -> int {
    civil_to_days(dt.year as int, dt.month as int, dt.day as int) * 86400 + dt.hour as int * 3600
        + dt.minute as int * 60 + dt.second as int
}

/// Civil instant of a supported Unix second count.  The contract demands
/// the exact inverse: mapping the result back through the primitive count
/// returns the input, which is the round-trip identity.
pub fn unix_to_datetime(unix_secs: u64) -> (r: CivilDateTime)
    requires
        unix_secs <= MAX_UNIX_SECS,
    ensures
        valid_datetime(r),
        datetime_to_unix_spec(r) == unix_secs,
{
    let days: u32 = (unix_secs / 86400) as u32;
    let secs_today: u32 = (unix_secs % 86400) as u32;
    let hour: u8 = (secs_today / 3600) as u8;
    let minute: u8 = ((secs_today % 3600) / 60) as u8;
    let second: u8 = (secs_today % 60) as u8;
    proof {
        vstd::arithmetic::div_mod::lemma_fundamental_div_mod(unix_secs as int, 86400);
        vstd::arithmetic::div_mod::lemma_fundamental_div_mod(secs_today as int, 3600);
        vstd::arithmetic::div_mod::lemma_fundamental_div_mod(secs_today as int % 3600, 60);
    }
    let (year, month, day) = civil_from_days(days);
    CivilDateTime { year, month, day, hour, minute, second }
}

/// A supported date's offset within its year stays inside the year.
proof fn lemma_in_year_bounds(year: int, month: int, day: int)
    requires
        valid_civil(year, month, day),
    ensures
        0 <= days_before_month(year, month) + day - 1 < days_in_year(year),
{
    reveal_with_fuel(days_before_month, 13);
}

/// Law: the primitive day count tells supported civil dates apart — no two
/// distinct dates share a day number.
pub proof fn lemma_civil_to_days_injective(
    y1: int,
    m1: int,
    d1: int,
    y2: int,
    m2: int,
    d2: int,
)
    requires
        valid_civil(y1, m1, d1),
        valid_civil(y2, m2, d2),
        civil_to_days(y1, m1, d1) == civil_to_days(y2, m2, d2),
    ensures
        y1 == y2,
        m1 == m2,
        d1 == d2,
{
    lemma_in_year_bounds(y1, m1, d1);
    lemma_in_year_bounds(y2, m2, d2);
    if y1 < y2 {
        lemma_days_before_year_monotone(y1 + 1, y2);
        assert(days_before_year(y1 + 1) == days_before_year(y1) + days_in_year(y1));
    }
    if y2 < y1 {
        lemma_days_before_year_monotone(y2 + 1, y1);
        assert(days_before_year(y2 + 1) == days_before_year(y2) + days_in_year(y2));
    }
    reveal_with_fuel(days_before_month, 13);
}

/// Law: a supported civil instant is reproduced exactly by a round trip
/// through its Unix second count — no two instants share one.  Together
/// with the conversion contracts this gives the inverse round trip:
/// `unix_to_datetime(datetime_to_unix(dt)) == dt`.
pub proof fn lemma_datetime_round_trip(a: CivilDateTime, b: CivilDateTime)
    requires
        valid_datetime(a),
        valid_datetime(b),
        datetime_to_unix_spec(a) == datetime_to_unix_spec(b),
    ensures
        a == b,
{
    let ca = civil_to_days(a.year as int, a.month as int, a.day as int);
    let cb = civil_to_days(b.year as int, b.month as int, b.day as int);
    let ta = a.hour as int * 3600 + a.minute as int * 60 + a.second as int;
    let tb = b.hour as int * 3600 + b.minute as int * 60 + b.second as int;
    let x = datetime_to_unix_spec(a);
    assert(ca >= 0) by {
        lemma_days_before_year_monotone(1970, a.year as int);
        lemma_in_year_bounds(a.year as int, a.month as int, a.day as int);
    }
    assert(cb >= 0) by {
        lemma_days_before_year_monotone(1970, b.year as int);
        lemma_in_year_bounds(b.year as int, b.month as int, b.day as int);
    }
    // the day count and the time of day are the quotient and remainder of
    // the second count by the day length, so each is determined
    vstd::arithmetic::div_mod::lemma_fundamental_div_mod_converse_div(x, 86400, ca, ta);
    vstd::arithmetic::div_mod::lemma_fundamental_div_mod_converse_div(x, 86400, cb, tb);
    lemma_civil_to_days_injective(
        a.year as int,
        a.month as int,
        a.day as int,
        b.year as int,
        b.month as int,
        b.day as int,
    );
    // within the day, hour, minute and second are nested quotients
    vstd::arithmetic::div_mod::lemma_fundamental_div_mod_converse_div(
        ta,
        3600,
        a.hour as int,
        a.minute as int * 60 + a.second as int,
    );
    vstd::arithmetic::div_mod::lemma_fundamental_div_mod_converse_div(
        tb,
        3600,
        b.hour as int,
        b.minute as int * 60 + b.second as int,
    );
    vstd::arithmetic::div_mod::lemma_fundamental_div_mod_converse_div(
        a.minute as int * 60 + a.second as int,
        60,
        a.minute as int,
        a.second as int,
    );
    vstd::arithmetic::div_mod::lemma_fundamental_div_mod_converse_div(
        b.minute as int * 60 + b.second as int,
        60,
        b.minute as int,
        b.second as int,
    );
}

/// Unix seconds of a supported civil instant.
pub fn datetime_to_unix(dt: CivilDateTime) -> (r: u64)
    requires
        valid_datetime(dt),
    ensures
        r == datetime_to_unix_spec(dt),
        r <= MAX_UNIX_SECS,
{
    let days: u32 = days_from_civil(dt.year, dt.month, dt.day);
    (days as u64) * 86400 + (dt.hour as u64) * 3600 + (dt.minute as u64) * 60 + (dt.second as u64)
}

} // verus!
