//! Calendar facts about the civil dates that `days_to_ymd` gives.

use vstd::prelude::*;
use crate::wallet::spec_days_to_ymd;

verus! {

/// Gregorian leap years.
pub open spec fn is_leap(y: int) -> bool {
    y % 4 == 0 && (y % 100 != 0 || y % 400 == 0)
}

/// Days in month `m` (1 to 12) of year `y`.
pub open spec fn days_in_month(y: int, m: int) -> int {
    if m == 2 {
        if is_leap(y) {
            29
        } else {
            28
        }
    } else if m == 4 || m == 6 || m == 9 || m == 11 {
        30
    } else {
        31
    }
}

/// The day after (`y`, `m`, `d`).
pub open spec fn next_day(y: int, m: int, d: int) -> (int, int, int) {
    if d < days_in_month(y, m) {
        (y, m, d + 1)
    } else if m < 12 {
        (y, m + 1, 1)
    } else {
        (y + 1, 1, 1)
    }
}

/// The date of day `doe` of a 400-year cycle that starts on 1 March of
/// year 0 of the cycle (January and February fall in the next year).
pub open spec fn cycle_date(doe: int) -> (int, int, int) {
    let yoe = (doe - doe / 1460 + doe / 36524 - doe / 146096) / 365;
    let doy = doe - (365 * yoe + yoe / 4 - yoe / 100);
    let mp = (5 * doy + 2) / 153;
    let d = doy - (153 * mp + 2) / 5 + 1;
    let m = if mp < 10 { mp + 3 } else { mp - 9 };
    let t = if m <= 2 { yoe + 1 } else { yoe };
    (t, m, d)
}

/// The day of the 400-year cycle `doe` lands in a real day of its month
/// (year counted within the cycle, January and February in the next one).
pub open spec fn cycle_day_ok(doe: int) -> bool {
    let yoe = (doe - doe / 1460 + doe / 36524 - doe / 146096) / 365;
    let doy = doe - (365 * yoe + yoe / 4 - yoe / 100);
    let mp = (5 * doy + 2) / 153;
    let d = doy - (153 * mp + 2) / 5 + 1;
    let m = if mp < 10 { mp + 3 } else { mp - 9 };
    let t = if m <= 2 { yoe + 1 } else { yoe };
    1 <= m <= 12 && 1 <= d <= days_in_month(t, m)
}

proof fn lemma_cycle_day_ok(doe: int)
    requires
        0 <= doe < 146097,
    ensures
        cycle_day_ok(doe),
{
    let yoe = (doe - doe / 1460 + doe / 36524 - doe / 146096) / 365;
    let doy = doe - (365 * yoe + yoe / 4 - yoe / 100);
    assert(0 <= yoe <= 399);
    assert(0 <= doy <= 365);
    assert(doy == 365 ==> yoe % 4 == 3 && (yoe % 100 != 99 || yoe == 399));
}

/// Year of the cycle (from 1 March) that day `doe` falls in.
pub open spec fn cycle_year(doe: int) -> int {
    (doe - doe / 1460 + doe / 36524 - doe / 146096) / 365
}

/// Day of that year, from 1 March.
pub open spec fn year_day(doe: int) -> int {
    let yoe = cycle_year(doe);
    doe - (365 * yoe + yoe / 4 - yoe / 100)
}

/// A year of the cycle whose February (in the next calendar year) has a
/// 29th.
pub open spec fn long_year(yoe: int) -> bool {
    yoe % 4 == 3 && (yoe % 100 != 99 || yoe == 399)
}

proof fn lemma_year_step(doe: int)
    requires
        0 <= doe < 146096,
    ensures
        (cycle_year(doe + 1) == cycle_year(doe) && year_day(doe + 1) == year_day(doe) + 1)
            || (cycle_year(doe + 1) == cycle_year(doe) + 1 && year_day(doe + 1) == 0 && year_day(
            doe,
        ) == if long_year(cycle_year(doe)) {
            365int
        } else {
            364int
        }),
{
    lemma_cycle_day_ok(doe);
    lemma_cycle_day_ok(doe + 1);
}

proof fn lemma_month_step(doy: int)
    requires
        0 <= doy < 365,
    ensures
        ({
            let mp = (5 * doy + 2) / 153;
            let d = doy - (153 * mp + 2) / 5 + 1;
            let mp2 = (5 * (doy + 1) + 2) / 153;
            let d2 = (doy + 1) - (153 * mp2 + 2) / 5 + 1;
            ||| mp2 == mp && d2 == d + 1
            ||| mp2 == mp + 1 && d2 == 1 && mp <= 10 && d == if mp == 1 || mp == 3 || mp == 6 || mp
                == 8 {
                30int
            } else {
                31int
            }
        }),
{
}

proof fn lemma_cycle_next(doe: int)
    requires
        0 <= doe < 146096,
    ensures
        ({
            let c = cycle_date(doe);
            cycle_date(doe + 1) == next_day(c.0, c.1, c.2)
        }),
{
    lemma_cycle_day_ok(doe);
    lemma_year_step(doe);
    let doy = year_day(doe);
    if cycle_year(doe + 1) == cycle_year(doe) {
        lemma_month_step(doy);
    }
}

/// A day count's date is its cycle date, shifted by 400 years a cycle.
proof fn lemma_days_in_cycle(days: nat)
    ensures
        ({
            let z = days + 719468;
            let era = z / 146097;
            let doe = z - era * 146097;
            let c = cycle_date(doe);
            let r = spec_days_to_ymd(days);
            &&& 0 <= doe < 146097
            &&& 0 <= era
            &&& r.0 as int == c.0 + 400 * era
            &&& r.1 as int == c.1
            &&& r.2 as int == c.2
        }),
{
    let z = days + 719468;
    let era = z / 146097;
    let doe = z - era * 146097;
    assert(0 <= doe < 146097);
    lemma_cycle_day_ok(doe);
}

proof fn lemma_leap_cycle(t: int, era: int)
    requires
        era >= 0,
    ensures
        is_leap(t + 400 * era) == is_leap(t),
        days_in_month(t + 400 * era, 2) == days_in_month(t, 2),
{
}

/// Every date that `days_to_ymd` gives is a real date: its month is 1 to
/// 12 and its day lies within that month of that year (Gregorian rule).
pub proof fn lemma_days_to_ymd_real_date(days: nat)
    ensures
        ({
            let (y, m, d) = spec_days_to_ymd(days);
            &&& 1 <= m <= 12
            &&& 1 <= d <= days_in_month(y as int, m as int)
        }),
{
    lemma_days_in_cycle(days);
    let z = days + 719468;
    let era = z / 146097;
    let doe = z - era * 146097;
    lemma_cycle_day_ok(doe);
    lemma_leap_cycle(cycle_date(doe as int).0, era as int);
}

/// The next day count gives the next calendar day.
pub proof fn lemma_days_to_ymd_next_day(days: nat)
    ensures
        ({
            let (y, m, d) = spec_days_to_ymd(days);
            let (y2, m2, d2) = spec_days_to_ymd(days + 1);
            (y2 as int, m2 as int, d2 as int) == next_day(y as int, m as int, d as int)
        }),
{
    lemma_days_in_cycle(days);
    lemma_days_in_cycle(days + 1);
    let z = days + 719468;
    let era = z / 146097;
    let doe = z - era * 146097;
    let c = cycle_date(doe);
    lemma_leap_cycle(c.0, era as int);
    if doe < 146096 {
        assert((z + 1) / 146097 == era);
        lemma_cycle_next(doe);
    } else {
        assert((z + 1) / 146097 == era + 1);
        assert(cycle_date(146096) == (400int, 2int, 29int));
        assert(cycle_date(0) == (0int, 3int, 1int));
        lemma_leap_cycle(400, era as int);
    }
}

} // verus!
