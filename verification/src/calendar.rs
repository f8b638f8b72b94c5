//! Proleptic Gregorian calendar arithmetic on day numbers counted from
//! 1970-01-01.
use vstd::prelude::*;

verus! {

/// Days of 400-year era arithmetic: day 0 is 1970-01-01.
pub open spec fn civil_from_days(days: int) -> (int, int, int) {
    let z = days + 719468;
    let era = z / 146097;
    let doe = z - era * 146097;
    let yoe = (doe - doe / 1460 + doe / 36524 - doe / 146096) / 365;
    let y = yoe + era * 400;
    let doy = doe - (365 * yoe + yoe / 4 - yoe / 100);
    let mp = (5 * doy + 2) / 153;
    let d = doy - (153 * mp + 2) / 5 + 1;
    let m = if mp < 10 {
        mp + 3
    } else {
        mp - 9
    };
    (if m <= 2 {
        y + 1
    } else {
        y
    }, m, d)
}

/// Day number of a (year, month, day) triple.
pub open spec fn days_from_civil(year: int, month: int, day: int) -> int {
    let y = if month <= 2 {
        year - 1
    } else {
        year
    };
    let m = if month <= 2 {
        month + 9
    } else {
        month - 3
    };
    let era = y / 400;
    let yoe = y - era * 400;
    let doy = (153 * m + 2) / 5 + day - 1;
    let doe = yoe * 365 + yoe / 4 - yoe / 100 + doy;
    era * 146097 + doe - 719468
}

/// The range of day numbers whose year fits the `i32` arithmetic.
pub open spec fn day_in_range(days: int) -> bool {
    -700_000_000_000 <= days <= 700_000_000_000
}

/// Converts a day number to (year, month, day).
#[verifier::spinoff_prover]
pub fn days_to_ymd(days: i64) -> (r: (i32, u32, u32))
    requires
        day_in_range(days as int),
    ensures
        (r.0 as int, r.1 as int, r.2 as int) == civil_from_days(days as int),
{
    let z = days + 719468;
    let n = if z >= 0 {
        z
    } else {
        z - 146096
    };
    let era = n / 146097;
    let doe = (z - era * 146097) as u32;
    let yoe = (doe - doe / 1460 + doe / 36524 - doe / 146096) / 365;
    let y = yoe as i32 + era as i32 * 400;
    let doy = doe - (365 * yoe + yoe / 4 - yoe / 100);
    let mp = (5 * doy + 2) / 153;
    let d = doy - (153 * mp + 2) / 5 + 1;
    let m = if mp < 10 {
        mp + 3
    } else {
        mp - 9
    };
    let y = if m <= 2 {
        y + 1
    } else {
        y
    };
    (y, m, d)
}

/// Converts (year, month, day) to a day number.
#[verifier::spinoff_prover]
pub fn ymd_to_days(year: i32, month: u32, day: u32) -> (r: i64)
    requires
        month > 2 || year > i32::MIN,
    ensures
        r as int == days_from_civil(year as int, month as int, day as int),
{
    let y = (if month <= 2 {
        year - 1
    } else {
        year
    }) as i64;
    let m = (if month <= 2 {
        month + 9
    } else {
        month - 3
    }) as i64;
    let era = (if y >= 0 {
        y
    } else {
        y - 399
    }) / 400;
    let yoe = (y - era * 400) as i64;
    let doy = (153 * m + 2) / 5 + day as i64 - 1;
    let doe = yoe * 365 + yoe / 4 - yoe / 100 + doy;
    era * 146097 + doe - 719468
}

} // verus!
verus! {

proof fn lemma_era_day_bounds(doe: u32)
    requires
        doe <= 146096,
    ensures
        ({
            let yoe = (doe - doe / 1460 + doe / 36524 - doe / 146096) / 365;
            &&& yoe <= 399
            &&& 365 * yoe + yoe / 4 - yoe / 100 <= doe
            &&& doe - (365 * yoe + yoe / 4 - yoe / 100) <= 365
        }),
{
    assert(doe <= 146096 ==> ({
        let yoe = (doe - doe / 1460 + doe / 36524 - doe / 146096) / 365;
        &&& yoe <= 399
        &&& 365 * yoe + yoe / 4 - yoe / 100 <= doe
        &&& doe - (365 * yoe + yoe / 4 - yoe / 100) <= 365
    })) by (bit_vector);
}

/// Converting a day number to a calendar date and back gives the same day
/// number.
#[verifier::spinoff_prover]
pub proof fn lemma_days_to_ymd_round_trip(days: int)
    ensures
        ({
            let (y, m, d) = civil_from_days(days);
            days_from_civil(y, m, d) == days
        }),
{
    let z = days + 719468;
    let era = z / 146097;
    let doe = z - era * 146097;
    assert(0 <= doe <= 146096);
    lemma_era_day_bounds(doe as u32);
    let yoe = (doe - doe / 1460 + doe / 36524 - doe / 146096) / 365;
    assert(yoe == ((doe as u32 - doe as u32 / 1460 + doe as u32 / 36524 - doe as u32 / 146096)
        / 365) as int);
    let doy = doe - (365 * yoe + yoe / 4 - yoe / 100);
    assert(0 <= doy <= 365);
    let mp = (5 * doy + 2) / 153;
    assert(0 <= mp <= 11);
    let y = yoe + era * 400;
    assert((yoe + era * 400) / 400 == era);
}

/// Gregorian leap year.
pub open spec fn is_leap_year(year: int) -> bool {
    year % 4 == 0 && (year % 100 != 0 || year % 400 == 0)
}

/// Number of days in a month (1 = January).
pub open spec fn days_in_month(year: int, month: int) -> int {
    if month == 2 {
        if is_leap_year(year) {
            29
        } else {
            28
        }
    } else if month == 4 || month == 6 || month == 9 || month == 11 {
        30
    } else {
        31
    }
}

/// A real calendar date.
pub open spec fn valid_date(year: int, month: int, day: int) -> bool {
    1 <= month <= 12 && 1 <= day <= days_in_month(year, month)
}

/// First day (counted from March 1 of the era's first year) of year `k` of a
/// 400-year era.
spec fn era_year_start(k: int) -> int {
    365 * k + k / 4 - k / 100
}

/// The era year `k` (March to February) ends with a February 29.
spec fn era_year_is_long(k: int) -> bool {
    (k + 1) % 4 == 0 && ((k + 1) % 100 != 0 || k + 1 == 400)
}

proof fn lemma_era_day_in_year(doe: u32)
    requires
        doe <= 146096,
    ensures
        ({
            let yoe = (doe - doe / 1460 + doe / 36524 - doe / 146096) / 365;
            let start = 365 * yoe + yoe / 4 - yoe / 100;
            ||| doe - start <= 364
            ||| (doe - start == 365 && (yoe + 1) % 4 == 0 && ((yoe + 1) % 100 != 0 || yoe + 1
                == 400))
        }),
{
    assert(doe <= 146096 ==> ({
        let yoe = (doe - doe / 1460 + doe / 36524 - doe / 146096) / 365;
        let start = 365 * yoe + yoe / 4 - yoe / 100;
        ||| doe - start <= 364
        ||| (doe - start == 365 && (yoe + 1) % 4 == 0 && ((yoe + 1) % 100 != 0 || yoe + 1
            == 400))
    })) by (bit_vector);
}

proof fn lemma_era_year_step(k: int)
    requires
        0 <= k <= 399,
    ensures
        era_year_start(k + 1) == era_year_start(k) + 365 + (if (k + 1) % 4 == 0 {
            1int
        } else {
            0int
        }) - (if (k + 1) % 100 == 0 {
            1int
        } else {
            0int
        }),
        era_year_start(k + 1) >= era_year_start(k) + 365,
{
}

proof fn lemma_era_year_monotone(j: int, k: int)
    requires
        0 <= j <= k <= 400,
    ensures
        era_year_start(k) >= era_year_start(j) + 365 * (k - j),
    decreases k - j,
{
    if j < k {
        lemma_era_year_monotone(j, k - 1);
        lemma_era_year_step(k - 1);
    }
}

proof fn lemma_year_of_era_day(yoe: int, doy: int)
    requires
        0 <= yoe <= 399,
        0 <= doy,
        doy <= 364 || (doy == 365 && era_year_is_long(yoe)),
    ensures
        ({
            let doe = era_year_start(yoe) + doy;
            &&& doe <= 146096
            &&& (doe - doe / 1460 + doe / 36524 - doe / 146096) / 365 == yoe
        }),
{
    let doe = era_year_start(yoe) + doy;
    lemma_era_year_monotone(yoe, 399);
    assert(era_year_start(399) == 145731);
    assert(doe <= 146096);
    lemma_era_day_in_year(doe as u32);
    lemma_era_day_bounds(doe as u32);
    let y = (doe - doe / 1460 + doe / 36524 - doe / 146096) / 365;
    assert(y == ((doe as u32 - doe as u32 / 1460 + doe as u32 / 36524 - doe as u32 / 146096)
        / 365) as int);
    assert(0 <= y <= 399);
    if y > yoe {
        lemma_era_year_monotone(yoe + 1, y);
        lemma_era_year_step(yoe);
        assert(false);
    }
    if y < yoe {
        lemma_era_year_monotone(y + 1, yoe);
        lemma_era_year_step(y);
        assert(false);
    }
}

proof fn lemma_month_of_year_day(mm: u32, d: u32)
    requires
        mm <= 11,
        1 <= d,
        d <= 31,
        (mm == 1 || mm == 3 || mm == 6 || mm == 8) ==> d <= 30,
        mm == 11 ==> d <= 29,
    ensures
        (5 * ((153 * mm + 2) / 5 + d - 1) + 2) / 153 == mm,
{
    assert(mm <= 11 && 1 <= d && d <= 31 && ((mm == 1 || mm == 3 || mm == 6 || mm == 8) ==> d
        <= 30) && (mm == 11 ==> d <= 29) ==> (5 * ((153 * mm + 2) / 5 + d - 1) + 2) / 153 == mm)
        by (bit_vector);
}

/// Converting a real calendar date to its day number and back gives the same
/// date.
/// The day number of a date splits into its era and the day within the era
/// exactly as `civil_from_days` reads it back.
proof fn lemma_civil_parts(era: int, yoe: int, doy: int, mm: int, day: int)
    requires
        0 <= yoe <= 399,
        0 <= doy,
        doy <= 364 || (doy == 365 && era_year_is_long(yoe)),
        era_year_start(yoe) + doy <= 146096,
        ({
            let doe = era_year_start(yoe) + doy;
            (doe - doe / 1460 + doe / 36524 - doe / 146096) / 365 == yoe
        }),
        0 <= mm <= 11,
        (5 * doy + 2) / 153 == mm,
        doy == (153 * mm + 2) / 5 + day - 1,
    ensures
        ({
            let r = civil_from_days(era * 146097 + era_year_start(yoe) + doy - 719468);
            &&& r.0 == (if mm >= 10 {
                yoe + era * 400 + 1
            } else {
                yoe + era * 400
            })
            &&& r.1 == (if mm < 10 {
                mm + 3
            } else {
                mm - 9
            })
            &&& r.2 == day
        }),
{
    let doe = era_year_start(yoe) + doy;
    let z = era * 146097 + doe;
    assert(z / 146097 == era);
    assert(z - (z / 146097) * 146097 == doe);
}

/// Converting a real calendar date to its day number and back gives the same
/// date.
#[verifier::spinoff_prover]
#[verifier::rlimit(60)]
pub proof fn lemma_ymd_to_days_round_trip(year: int, month: int, day: int)
    requires
        valid_date(year, month, day),
    ensures
        civil_from_days(days_from_civil(year, month, day)) == (year, month, day),
{
    let y = if month <= 2 {
        year - 1
    } else {
        year
    };
    let mm = if month <= 2 {
        month + 9
    } else {
        month - 3
    };
    let era = y / 400;
    let yoe = y - era * 400;
    assert(0 <= yoe <= 399);
    let doy = (153 * mm + 2) / 5 + day - 1;
    lemma_month_of_year_day(mm as u32, day as u32);
    assert((5 * doy + 2) / 153 == mm);
    assert(0 <= doy <= 365);
    if doy == 365 {
        assert(month == 2 && day == 29);
        assert(year == era * 400 + yoe + 1);
        assert(year % 4 == (yoe + 1) % 4);
        assert(year % 100 == (yoe + 1) % 100);
        assert(year % 400 == (yoe + 1) % 400);
    }
    lemma_year_of_era_day(yoe, doy);
    lemma_civil_parts(era, yoe, doy, mm, day);
    assert(days_from_civil(year, month, day) == era * 146097 + era_year_start(yoe) + doy - 719468);
}

} // verus!

verus! {

/// `days_from_civil` for years beyond the `i32` range of `ymd_to_days`.
#[verifier::spinoff_prover]
#[verifier::rlimit(40)]
pub fn civil_days_wide(year: i64, month: u32, day: u32) -> (r: i64)
    requires
        -1_000_000_000_000 <= year <= 1_000_000_000_000,
    ensures
        r as int == days_from_civil(year as int, month as int, day as int),
{
    let y = if month <= 2 {
        year - 1
    } else {
        year
    };
    let m = (if month <= 2 {
        month + 9
    } else {
        month - 3
    }) as i64;
    let era = (if y >= 0 {
        y
    } else {
        y - 399
    }) / 400;
    assert(-2_500_000_001 <= era <= 2_500_000_001);
    let yoe = y - era * 400;
    assert(0 <= yoe <= 399);
    let doy = (153 * m + 2) / 5 + day as i64 - 1;
    let doe = yoe * 365 + yoe / 4 - yoe / 100 + doy;
    assert(era * 146097 <= 2_500_000_001 * 146097 && era * 146097 >= -2_500_000_001 * 146097)
        by (nonlinear_arith)
        requires
            -2_500_000_001 <= era <= 2_500_000_001,
    ;
    era * 146097 + doe - 719468
}

} // verus!
