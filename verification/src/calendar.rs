//! Proleptic Gregorian calendar arithmetic on Unix timestamps (UTC), used for
//! the deadlines of the legacy key restoration campaign.

use vstd::prelude::*;
use vstd::arithmetic::div_mod::lemma_hoist_over_denominator;

verus! {

/// 2026-12-31 23:59:59 UTC.
pub const LEGACY_RESTORE_DEADLINE: i64 = 1_798_761_599;

/// 2026-12-01 00:00:00 Moscow time (UTC+3); the instant itself is already closed.
pub const LEGACY_REQUEST_DEADLINE: i64 = 1_796_072_400;

/// Largest absolute year handed to the day-count helper.
const CIVIL_YEAR_SPAN: i64 = 1_000_000_000_000_000;

// ---------------------------------------------------------------------------
// Model of the calendar
// ---------------------------------------------------------------------------

pub open spec fn is_leap_year(year: int) -> bool {
    (year % 4 == 0 && year % 100 != 0) || year % 400 == 0
}

pub open spec fn days_in_year(year: int) -> int {
    if is_leap_year(year) {
        366int
    } else {
        365int
    }
}

/// Days from 1970-01-01 to January 1st of `year` (negative before 1970).
pub open spec fn days_before_year(year: int) -> int
    decreases (if year >= 1970 { year - 1970 } else { 1970 - year }),
{
    if year == 1970 {
        0
    } else if year > 1970 {
        days_before_year(year - 1) + days_in_year(year - 1)
    } else {
        days_before_year(year + 1) - days_in_year(year)
    }
}

/// Days from January 1st to the first day of `month` (1..=12) of `year`.
pub open spec fn days_before_month(year: int, month: int) -> int {
    let common: int = if month == 1 {
        0
    } else if month == 2 {
        31
    } else if month == 3 {
        59
    } else if month == 4 {
        90
    } else if month == 5 {
        120
    } else if month == 6 {
        151
    } else if month == 7 {
        181
    } else if month == 8 {
        212
    } else if month == 9 {
        243
    } else if month == 10 {
        273
    } else if month == 11 {
        304
    } else {
        334
    };
    common + if month > 2 && is_leap_year(year) {
        1int
    } else {
        0int
    }
}

/// Days from 1970-01-01 to the given civil date.
pub open spec fn civil_days(year: int, month: int, day: int) -> int {
    days_before_year(year) + days_before_month(year, month) + day - 1
}

/// `year` is the calendar year (UTC) of the instant `epoch`.
pub open spec fn is_year_of(year: int, epoch: int) -> bool {
    days_before_year(year) <= epoch / 86400 < days_before_year(year + 1)
}

/// The calendar year (UTC) of the instant `epoch`.
pub open spec fn calendar_year(epoch: int) -> int {
    choose|year: int| is_year_of(year, epoch)
}

/// Last second (UTC) of `year`.
pub open spec fn year_end(year: int) -> int {
    days_before_year(year + 1) * 86400 - 1
}

/// First second (UTC) of December 1st of `year`.
pub open spec fn december_start(year: int) -> int {
    civil_days(year, 12, 1) * 86400
}

pub open spec fn fits_i64(value: int) -> bool {
    i64::MIN <= value <= i64::MAX
}

/// The year whose end a legacy renewal runs to: the year after the current
/// expiry (or after now, without one), but never a year already gone.
pub open spec fn renewal_target_year(now: int, current_expiry: Option<i64>) -> int {
    let current = calendar_year(now);
    let proposed = match current_expiry {
        Some(expiry) => calendar_year(expiry as int) + 1,
        None => current + 1,
    };
    if proposed >= current {
        proposed
    } else {
        current
    }
}

// ---------------------------------------------------------------------------
// Lemmas
// ---------------------------------------------------------------------------

/// Leap days among the years 1..=n, shifted affinely for n < 0.
pub open spec fn leap_days_through(n: int) -> int {
    n / 4 - n / 100 + n / 400
}

proof fn lemma_leap_step(n: int)
    ensures
        leap_days_through(n) - leap_days_through(n - 1) == if is_leap_year(n) {
            1int
        } else {
            0int
        },
{
}

proof fn lemma_days_before_year_step(year: int)
    ensures
        days_before_year(year + 1) == days_before_year(year) + days_in_year(year),
{
    if year >= 1970 {
        assert(days_before_year(year + 1) == days_before_year(year) + days_in_year(year));
    } else {
        assert(days_before_year(year) == days_before_year(year + 1) - days_in_year(year));
    }
}

proof fn lemma_days_before_year_closed(year: int)
    ensures
        days_before_year(year) == 365 * (year - 1970) + leap_days_through(year - 1) - 477,
    decreases (if year >= 1970 { year - 1970 } else { 1970 - year }),
{
    if year == 1970 {
        assert(leap_days_through(1969) == 477);
    } else if year > 1970 {
        lemma_days_before_year_closed(year - 1);
        lemma_days_before_year_step(year - 1);
        lemma_leap_step(year - 1);
    } else {
        lemma_days_before_year_closed(year + 1);
        lemma_days_before_year_step(year);
        lemma_leap_step(year);
    }
}

/// March 1st of `year`, counted the way the era formulas count it.
proof fn lemma_march_first(year: int)
    ensures
        365 * year + leap_days_through(year) - 719_468 == days_before_year(year) + 59 + if is_leap_year(year) {
            1int
        } else {
            0int
        },
{
    lemma_days_before_year_closed(year);
    lemma_leap_step(year);
}

/// Splitting a (March-based) year into 400-year eras.
proof fn lemma_era_split(year: int, era: int, yoe: int)
    requires
        year == era * 400 + yoe,
        0 <= yoe < 400,
    ensures
        era * 146_097 + 365 * yoe + yoe / 4 - yoe / 100 == 365 * year + leap_days_through(year),
{
    lemma_hoist_over_denominator(yoe, era * 100, 4);
    lemma_hoist_over_denominator(yoe, era * 4, 100);
    lemma_hoist_over_denominator(yoe, era, 400);
    assert(era * 100 * 4 == era * 400);
    assert(era * 4 * 100 == era * 400);
}

proof fn lemma_days_before_year_increasing(a: int, b: int)
    requires
        a < b,
    ensures
        days_before_year(a) + 365 <= days_before_year(b),
    decreases b - a,
{
    lemma_days_before_year_step(a);
    if a + 1 < b {
        lemma_days_before_year_increasing(a + 1, b);
    }
}

/// A calendar year is determined by the instant.
pub proof fn lemma_year_of_unique(y1: int, y2: int, epoch: int)
    requires
        is_year_of(y1, epoch),
        is_year_of(y2, epoch),
    ensures
        y1 == y2,
{
    if y1 < y2 {
        lemma_days_before_year_increasing(y1, y2);
        if y1 + 1 < y2 {
            lemma_days_before_year_increasing(y1 + 1, y2);
        }
    } else if y2 < y1 {
        lemma_days_before_year_increasing(y2, y1);
        if y2 + 1 < y1 {
            lemma_days_before_year_increasing(y2 + 1, y1);
        }
    }
}

proof fn lemma_calendar_year_is(year: int, epoch: int)
    requires
        is_year_of(year, epoch),
    ensures
        calendar_year(epoch) == year,
        is_year_of(calendar_year(epoch), epoch),
{
    lemma_year_of_unique(calendar_year(epoch), year, epoch);
}

/// The day of an instant given as days past March 1st of a March-based year.
proof fn lemma_year_bracket(day: int, year: int, doy: int)
    requires
        day == 365 * year + leap_days_through(year) + doy - 719_468,
        0 <= doy <= 365,
    ensures
        doy < 306 ==> days_before_year(year) <= day < days_before_year(year + 1),
        doy >= 306 ==> days_before_year(year + 1) <= day < days_before_year(year + 2),
{
    lemma_march_first(year);
    lemma_days_before_year_step(year);
    lemma_days_before_year_step(year + 1);
}

/// Every instant has a calendar year.
pub proof fn lemma_calendar_year_exists(epoch: int)
    ensures
        is_year_of(calendar_year(epoch), epoch),
{
    let z = epoch / 86400 + 719_468;
    let era = z / 146_097;
    let doe = z - era * 146_097;
    let yoe = (doe - doe / 1_460 + doe / 36_524 - doe / 146_096) / 365;
    let doy = doe - (365 * yoe + yoe / 4 - yoe / 100);
    let year = yoe + era * 400;
    lemma_yoe_bounds(doe);
    lemma_era_split(year, era, yoe);
    lemma_year_bracket(epoch / 86400, year, doy);
    if doy < 306 {
        lemma_calendar_year_is(year, epoch);
    } else {
        lemma_calendar_year_is(year + 1, epoch);
    }
}

proof fn lemma_yoe_bounds(doe: int)
    requires
        0 <= doe <= 146_096,
    ensures
        ({
            let yoe = (doe - doe / 1_460 + doe / 36_524 - doe / 146_096) / 365;
            &&& 0 <= yoe <= 399
            &&& 0 <= doe - (365 * yoe + yoe / 4 - yoe / 100) <= 365
        }),
{
}

/// Years of representable day counts are far inside the span the day-count
/// helper accepts.
proof fn lemma_year_span(year: int)
    requires
        -200_000_000_000_000 <= days_before_year(year) <= 200_000_000_000_000,
    ensures
        -(CIVIL_YEAR_SPAN as int) + 2 <= year <= CIVIL_YEAR_SPAN as int - 2,
{
    lemma_days_before_year_closed(year);
}

/// The year of an `i64` instant is well inside `i64`.
proof fn lemma_calendar_year_span(epoch: int)
    requires
        fits_i64(epoch),
    ensures
        -(CIVIL_YEAR_SPAN as int) + 2 <= calendar_year(epoch) <= CIVIL_YEAR_SPAN as int - 2,
{
    lemma_calendar_year_exists(epoch);
    let year = calendar_year(epoch);
    lemma_days_before_year_step(year);
    lemma_days_before_year_closed(year);
    lemma_days_before_year_closed(year + 1);
}

// ---------------------------------------------------------------------------
// Laws
// ---------------------------------------------------------------------------

/// The last second of a year belongs to that year, and the next second to the
/// next year.
pub proof fn law_year_end_closes_year(year: int)
    ensures
        calendar_year(year_end(year)) == year,
        calendar_year(year_end(year) + 1) == year + 1,
{
    lemma_days_before_year_step(year);
    lemma_days_before_year_step(year + 1);
    assert((days_before_year(year + 1) * 86400 - 1) / 86400 == days_before_year(year + 1) - 1);
    assert((days_before_year(year + 1) * 86400) / 86400 == days_before_year(year + 1));
    lemma_calendar_year_is(year, year_end(year));
    lemma_calendar_year_is(year + 1, year_end(year) + 1);
}

/// December 1st lies in its own year.
pub proof fn law_december_start_in_year(year: int)
    ensures
        calendar_year(december_start(year)) == year,
        december_start(year) < year_end(year),
{
    lemma_days_before_year_step(year);
    assert((civil_days(year, 12, 1) * 86400) / 86400 == civil_days(year, 12, 1));
    lemma_calendar_year_is(year, december_start(year));
}

/// A legacy renewal runs to the end of a year that has not yet ended: the
/// result is never in the past, and its year is not earlier than the current
/// one nor earlier than the year after the current expiry.
pub proof fn law_renewal_not_in_past(now: int, current_expiry: Option<i64>)
    ensures
        year_end(renewal_target_year(now, current_expiry)) >= now,
        renewal_target_year(now, current_expiry) >= calendar_year(now),
        current_expiry is Some ==> renewal_target_year(now, current_expiry) >= calendar_year(
            current_expiry->0 as int,
        ) + 1,
        calendar_year(year_end(renewal_target_year(now, current_expiry))) == renewal_target_year(
            now,
            current_expiry,
        ),
{
    let target = renewal_target_year(now, current_expiry);
    lemma_calendar_year_exists(now);
    let current = calendar_year(now);
    if current < target {
        lemma_days_before_year_increasing(current + 1, target + 1);
    }
    law_year_end_closes_year(target);
}


/// The days before a year within a billion years of year zero, and the
/// seconds they make, are far inside `i64`.
pub proof fn lemma_year_days_bounded(year: int)
    requires
        -1_000_000_002 <= year <= 1_000_000_002,
    ensures
        -400_000_000_000 <= days_before_year(year) <= 400_000_000_000,
{
    lemma_days_before_year_closed(year);
}

/// For every year within a billion years of year zero, `end_of_year` and
/// `start_of_december` need nothing more of it or of the year before; the
/// year ends 31 days after December starts, and the ends of two years in a
/// row lie the second year's days apart.
pub proof fn law_year_end_spacing(year: int)
    requires
        -1_000_000_000 <= year <= 1_000_000_000,
    ensures
        fits_i64(year_end(year)),
        fits_i64(year_end(year) + 1),
        fits_i64(year_end(year - 1)),
        fits_i64(year_end(year - 1) + 1),
        fits_i64(december_start(year)),
        year_end(year) == december_start(year) + 31 * 86400 - 1,
        year_end(year) - year_end(year - 1) == 86400 * days_in_year(year),
{
    lemma_year_days_bounded(year - 1);
    lemma_year_days_bounded(year);
    lemma_year_days_bounded(year + 1);
    lemma_days_before_year_step(year);
    lemma_days_before_year_step(year - 1);
}

/// The calendar year of an instant within 10^15 seconds of 1970 lies within
/// a hundred million years of year zero.
pub proof fn lemma_calendar_year_bounded(epoch: int)
    requires
        -1_000_000_000_000_000 <= epoch <= 1_000_000_000_000_000,
    ensures
        -100_000_000 <= calendar_year(epoch) <= 100_000_000,
{
    lemma_calendar_year_exists(epoch);
    let year = calendar_year(epoch);
    lemma_days_before_year_closed(year);
    lemma_days_before_year_closed(year + 1);
}

/// A legacy renewal of an instant and an expiry within 10^15 seconds of 1970
/// needs nothing more: its target year ends inside `i64`.
pub proof fn law_renewal_target_fits(now: i64, current_expiry: Option<i64>)
    requires
        -1_000_000_000_000_000 <= now <= 1_000_000_000_000_000,
        current_expiry is Some ==> -1_000_000_000_000_000 <= current_expiry->0 <= 1_000_000_000_000_000,
    ensures
        fits_i64(year_end(renewal_target_year(now as int, current_expiry))),
        fits_i64(year_end(renewal_target_year(now as int, current_expiry)) + 1),
{
    lemma_calendar_year_bounded(now as int);
    if let Some(expiry) = current_expiry {
        lemma_calendar_year_bounded(expiry as int);
    }
    law_year_end_spacing(renewal_target_year(now as int, current_expiry));
}

// ---------------------------------------------------------------------------
// Executable functions
// ---------------------------------------------------------------------------

/// Legacy restoration requests are accepted strictly before the deadline.
pub fn legacy_requests_open(now: i64) -> (open: bool)
    ensures
        open == (now < LEGACY_REQUEST_DEADLINE),
{
    now < LEGACY_REQUEST_DEADLINE
}

/// Days from 1970-01-01 to `year`-`month`-`day` (era-based day count).
fn days_from_civil(year: i64, month: i64, day: i64) -> (days: i64)
    requires
        1 <= month <= 12,
        1 <= day <= 31,
        -CIVIL_YEAR_SPAN <= year <= CIVIL_YEAR_SPAN,
    ensures
        days == civil_days(year as int, month as int, day as int),
{
    let year0 = year;
    let year = year - if month <= 2 {
        1
    } else {
        0
    };
    let era = (if year >= 0 {
        year
    } else {
        year - 399
    }) / 400;
    assert(era == year / 400);
    let yoe = year - era * 400;
    let adjusted_month = month + if month > 2 {
        -3
    } else {
        9
    };
    let doy = (153 * adjusted_month + 2) / 5 + day - 1;
    let doe = yoe * 365 + yoe / 4 - yoe / 100 + doy;
    proof {
        lemma_era_split(year as int, era as int, yoe as int);
        lemma_march_first(year as int);
        lemma_days_before_year_step(year as int);
        lemma_leap_step(year0 as int);
        lemma_days_before_year_closed(year0 as int);
        lemma_days_before_year_closed(year as int);
    }
    era * 146_097 + doe - 719_468
}

/// Calendar year (UTC) of the instant `epoch`.
pub fn year_at(epoch: i64) -> (year: i64)
    ensures
        year == calendar_year(epoch as int),
        is_year_of(year as int, epoch as int),
{
    let z = epoch.checked_div_euclid(86_400).unwrap() + 719_468;
    let era = (if z >= 0 {
        z
    } else {
        z - 146_096
    }) / 146_097;
    assert(era == z / 146_097);
    let doe = z - era * 146_097;
    let yoe = (doe - doe / 1_460 + doe / 36_524 - doe / 146_096) / 365;
    proof {
        lemma_yoe_bounds(doe as int);
    }
    let mut year = yoe + era * 400;
    let doy = doe - (365 * yoe + yoe / 4 - yoe / 100);
    let mp = (5 * doy + 2) / 153;
    let month = mp + if mp < 10 {
        3
    } else {
        -9
    };
    proof {
        lemma_era_split(year as int, era as int, yoe as int);
        lemma_year_bracket(epoch as int / 86400, year as int, doy as int);
    }
    year += if month <= 2 {
        1
    } else {
        0
    };
    proof {
        lemma_calendar_year_is(year as int, epoch as int);
    }
    year
}

/// First second (UTC) of December 1st of `year`.
pub fn start_of_december(year: i64) -> (start: i64)
    requires
        fits_i64(december_start(year as int)),
    ensures
        start == december_start(year as int),
{
    proof {
        lemma_year_span(year as int);
    }
    days_from_civil(year, 12, 1) * 86_400
}

/// Last second (UTC) of `year`.
pub fn end_of_year(year: i64) -> (end: i64)
    requires
        fits_i64(year_end(year as int)),
        fits_i64(year_end(year as int) + 1),
    ensures
        end == year_end(year as int),
{
    proof {
        lemma_year_span(year as int + 1);
    }
    days_from_civil(year + 1, 1, 1) * 86_400 - 1
}

/// Expiry of a renewed legacy key: the end of the year after its current
/// expiry (or after the current year without one), never earlier than the end
/// of the current year.
pub fn legacy_renewal_target(now: i64, current_expiry: Option<i64>) -> (target: i64)
    requires
        fits_i64(year_end(renewal_target_year(now as int, current_expiry))),
        fits_i64(year_end(renewal_target_year(now as int, current_expiry)) + 1),
    ensures
        target == year_end(renewal_target_year(now as int, current_expiry)),
{
    let current_year = year_at(now);
    proof {
        lemma_calendar_year_span(now as int);
    }
    let proposed = match current_expiry {
        Some(expiry) => {
            let expiry_year = year_at(expiry);
            proof {
                lemma_calendar_year_span(expiry as int);
            }
            expiry_year + 1
        },
        None => current_year + 1,
    };
    let target_year = if proposed >= current_year {
        proposed
    } else {
        current_year
    };
    end_of_year(target_year)
}

} // verus!
