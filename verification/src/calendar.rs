//! Calendar engine: pure Gregorian date arithmetic on Unix timestamps.
//!
//! The mathematical model counts days since 1970-01-01. `day_index` maps a
//! civil date to its day count, `date_of_days` walks back from a day count
//! to the civil date, and `civil_ts` / `date_of_ts` lift both to seconds.
//! The supported range is the years 1970 through 9999.

use vstd::prelude::*;

verus! {

/// Gregorian leap-year rule.
pub open spec fn is_leap_s(year: int) -> bool {
    (year % 4 == 0 && year % 100 != 0) || year % 400 == 0
}

/// Length of a month; 0 outside 1..=12.
pub open spec fn days_in_month_s(year: int, month: int) -> int {
    if month == 1 || month == 3 || month == 5 || month == 7 || month == 8
        || month == 10 || month == 12 {
        31
    } else if month == 4 || month == 6 || month == 9 || month == 11 {
        30
    } else if month == 2 {
        if is_leap_s(year) { 29 } else { 28 }
    } else {
        0
    }
}

/// Length of a year.
pub open spec fn days_in_year_s(year: int) -> int {
    if is_leap_s(year) { 366 } else { 365 }
}

/// Days from 1970-01-01 up to January 1st of `year`.
pub open spec fn days_before_year(year: int) -> int
    decreases year,
{
    if year <= 1970 { 0 } else { days_before_year(year - 1) + days_in_year_s(year - 1) }
}

/// Days from January 1st of `year` up to the 1st of `month`.
pub open spec fn days_before_month(year: int, month: int) -> int
    decreases month,
{
    if month <= 1 { 0 } else { days_before_month(year, month - 1) + days_in_month_s(year, month - 1) }
}

/// Day count since 1970-01-01 of the civil date (year, month, day).
pub open spec fn day_index(year: int, month: int, day: int) -> int {
    days_before_year(year) + days_before_month(year, month) + day - 1
}

/// Midnight UTC of the civil date, as a Unix timestamp.
pub open spec fn civil_ts(year: int, month: int, day: int) -> int {
    day_index(year, month, day) * 86400
}

/// A date the engine supports: within the modeled year span and on a day
/// that exists in its month.
pub open spec fn valid_date(year: int, month: int, day: int) -> bool {
    1970 <= year <= 9999 && 1 <= month <= 12 && 1 <= day <= days_in_month_s(year, month)
}

/// Day count of 10000-01-01, the first day past the supported range.
pub open spec fn day_span_end() -> int {
    days_before_year(10000)
}

/// Timestamps whose civil date the engine supports: from 1970-01-01 up to
/// (excluding) 10000-01-01, which is second 253402300800 of the epoch.
pub open spec fn ts_in_range(ts: int) -> bool {
    0 <= ts < 253402300800
}

/// Peels whole years off a day count: returns the year reached and the
/// days left over within it.
pub open spec fn year_step(days: int, year: int) -> (int, int)
    decreases days,
{
    if days < days_in_year_s(year) {
        (year, days)
    } else {
        year_step(days - days_in_year_s(year), year + 1)
    }
}

/// Peels whole months off a day count within `year`, starting at `month`.
pub open spec fn month_step(days: int, year: int, month: int) -> (int, int)
    decreases 13 - month,
{
    if month >= 13 || days < days_in_month_s(year, month) {
        (month, days)
    } else {
        month_step(days - days_in_month_s(year, month), year, month + 1)
    }
}

/// Civil date of a day count since 1970-01-01.
pub open spec fn date_of_days(days: int) -> (int, int, int) {
    let (year, rest) = year_step(days, 1970);
    let (month, day0) = month_step(rest, year, 1);
    (year, month, day0 + 1)
}

/// Civil date containing a Unix timestamp.
pub open spec fn date_of_ts(ts: int) -> (int, int, int) {
    date_of_days(ts / 86400)
}

/// `days_before_year` grows with the year.
pub proof fn lemma_days_before_year_monotone(y1: int, y2: int)
    requires
        y1 <= y2,
    ensures
        days_before_year(y1) <= days_before_year(y2),
        1970 <= y1 && y1 < y2 ==> days_before_year(y1) + 365 <= days_before_year(y2),
    decreases y2 - y1,
{
    if y1 < y2 {
        lemma_days_before_year_monotone(y1, y2 - 1);
    }
}

/// Linear bound on the day count of a year, enough to rule out overflow.
pub proof fn lemma_days_before_year_bound(y: int)
    requires
        1970 <= y,
    ensures
        365 * (y - 1970) <= days_before_year(y) <= 366 * (y - 1970),
    decreases y,
{
    if y > 1970 {
        lemma_days_before_year_bound(y - 1);
    }
}

/// The twelve months of a year account for exactly its days.
pub proof fn lemma_months_fill_year(y: int)
    ensures
        days_before_month(y, 13) == days_in_year_s(y),
{
    assert(days_before_month(y, 13) == days_in_year_s(y)) by {
        reveal_with_fuel(days_before_month, 14);
    }
}

/// `days_before_month` grows with the month, and a valid day stays inside
/// its year.
pub proof fn lemma_days_before_month_monotone(y: int, m1: int, m2: int)
    requires
        m1 <= m2,
    ensures
        days_before_month(y, m1) <= days_before_month(y, m2),
    decreases m2 - m1,
{
    if m1 < m2 {
        lemma_days_before_month_monotone(y, m1, m2 - 1);
    }
}

/// A valid date's offset within its year is below the year's length.
pub proof fn lemma_day_offset_in_year(y: int, m: int, d: int)
    requires
        1 <= m <= 12,
        1 <= d <= days_in_month_s(y, m),
    ensures
        0 <= days_before_month(y, m) + d - 1 < days_in_year_s(y),
{
    lemma_days_before_month_monotone(y, 1, m);
    lemma_days_before_month_monotone(y, m + 1, 13);
    lemma_months_fill_year(y);
}

/// `year_step` lands on the year whose span contains the day count.
pub proof fn lemma_year_step_from(days: int, c: int, y: int)
    requires
        1970 <= c <= y,
        days_before_year(y) - days_before_year(c) <= days,
        days < days_before_year(y + 1) - days_before_year(c),
    ensures
        year_step(days, c) == (y, days - (days_before_year(y) - days_before_year(c))),
    decreases y - c,
{
    if c == y {
        assert(days < days_in_year_s(y));
    } else {
        lemma_days_before_year_monotone(c + 1, y);
        assert(days_before_year(c + 1) == days_before_year(c) + days_in_year_s(c));
        lemma_year_step_from(days - days_in_year_s(c), c + 1, y);
    }
}

/// `month_step` lands on the month whose span contains the day offset.
pub proof fn lemma_month_step_from(days: int, y: int, c: int, m: int)
    requires
        1 <= c <= m <= 12,
        days_before_month(y, m) - days_before_month(y, c) <= days,
        days < days_before_month(y, m + 1) - days_before_month(y, c),
    ensures
        month_step(days, y, c) == (m, days - (days_before_month(y, m) - days_before_month(y, c))),
    decreases m - c,
{
    if c == m {
        assert(days < days_in_month_s(y, m));
    } else {
        lemma_days_before_month_monotone(y, c + 1, m);
        assert(days_before_month(y, c + 1) == days_before_month(y, c) + days_in_month_s(y, c));
        lemma_month_step_from(days - days_in_month_s(y, c), y, c + 1, m);
    }
}

/// Wherever `year_step` starts inside the supported span, it ends on a
/// supported year with a day offset inside that year.
pub proof fn lemma_year_step_props(days: int, c: int)
    requires
        1970 <= c <= 9999,
        0 <= days,
        days + days_before_year(c) < day_span_end(),
    ensures
        ({
            let (y, rem) = year_step(days, c);
            c <= y <= 9999
                && days_before_year(y) + rem == days + days_before_year(c)
                && 0 <= rem < days_in_year_s(y)
        }),
    decreases days,
{
    if days >= days_in_year_s(c) {
        if c + 1 >= 10000 {
            lemma_days_before_year_monotone(10000, c + 1);
            assert(false);
        }
        lemma_year_step_props(days - days_in_year_s(c), c + 1);
    }
}

/// Wherever `month_step` starts inside a year, it ends on a month of that
/// year with a day offset inside that month.
pub proof fn lemma_month_step_props(days: int, y: int, c: int)
    requires
        1 <= c <= 12,
        0 <= days,
        days + days_before_month(y, c) < days_in_year_s(y),
    ensures
        ({
            let (m, rem) = month_step(days, y, c);
            c <= m <= 12
                && days_before_month(y, m) + rem == days + days_before_month(y, c)
                && 0 <= rem < days_in_month_s(y, m)
        }),
    decreases 12 - c,
{
    if days >= days_in_month_s(y, c) {
        if c == 12 {
            lemma_months_fill_year(y);
            assert(false);
        }
        lemma_month_step_props(days - days_in_month_s(y, c), y, c + 1);
    }
}

/// A timestamp in the supported span decomposes into a valid date whose
/// day contains it.
pub proof fn lemma_date_of_window(ts: int)
    requires
        ts_in_range(ts),
    ensures
        ({
            let (y, m, d) = date_of_ts(ts);
            valid_date(y, m, d) && civil_ts(y, m, d) <= ts < civil_ts(y, m, d) + 86400
        }),
{
    let days = ts / 86400;
    lemma_ts_in_range_days(ts);
    vstd::arithmetic::div_mod::lemma_fundamental_div_mod(ts, 86400);
    lemma_year_step_props(days, 1970);
    let (y, rest) = year_step(days, 1970);
    lemma_month_step_props(rest, y, 1);
}

/// Timestamps in order have their calendar years in order.
pub proof fn lemma_year_of_ts_monotone(ts1: int, ts2: int)
    requires
        ts_in_range(ts1),
        ts_in_range(ts2),
        ts1 <= ts2,
    ensures
        date_of_ts(ts1).0 <= date_of_ts(ts2).0,
{
    lemma_date_of_window(ts1);
    lemma_date_of_window(ts2);
    let (y1, m1, d1) = date_of_ts(ts1);
    let (y2, m2, d2) = date_of_ts(ts2);
    if y1 > y2 {
        lemma_day_offset_in_year(y2, m2, d2);
        lemma_days_before_year_monotone(y2 + 1, y1);
        lemma_days_before_month_monotone(y1, 1, m1);
        assert(false);
    }
}

/// A valid date's midnight timestamp lies in the supported span.
pub proof fn lemma_civil_ts_in_range(y: int, m: int, d: int)
    requires
        valid_date(y, m, d),
    ensures
        ts_in_range(civil_ts(y, m, d)),
        civil_ts(y, m, d) / 86400 == day_index(y, m, d),
        0 <= civil_ts(y, m, d),
{
    lemma_days_before_year_monotone(1970, y);
    lemma_days_before_month_monotone(y, 1, m);
    lemma_day_offset_in_year(y, m, d);
    lemma_days_before_year_monotone(y + 1, 10000);
    lemma_epoch_span();
    vstd::arithmetic::div_mod::lemma_div_by_multiple(day_index(y, m, d), 86400);
}

/// Calendar round-trip: decomposing a valid date's own midnight timestamp
/// gives that date back.
pub proof fn lemma_calendar_round_trip(y: int, m: int, d: int)
    requires
        valid_date(y, m, d),
    ensures
        date_of_ts(civil_ts(y, m, d)) == (y, m, d),
        ts_in_range(civil_ts(y, m, d)),
{
    lemma_civil_ts_in_range(y, m, d);
    lemma_day_offset_in_year(y, m, d);
    let days = day_index(y, m, d);
    lemma_year_step_from(days, 1970, y);
    lemma_month_step_from(days - days_before_year(y), y, 1, m);
}

/// The calendar month in which rent instalment `paid_months + 1` falls,
/// counted from the month containing `lease_start`.
pub open spec fn due_year(lease_start: int, paid_months: int) -> int {
    date_of_ts(lease_start).0 + (date_of_ts(lease_start).1 - 1 + paid_months + 1) / 12
}

/// Companion of `due_year`: the month number (1..=12) of that instalment.
pub open spec fn due_month(lease_start: int, paid_months: int) -> int {
    (date_of_ts(lease_start).1 - 1 + paid_months + 1) % 12 + 1
}

/// The day the instalment is due: the contractual payment day, clamped to
/// the length of the due month.
pub open spec fn due_day(lease_start: int, payment_day: int, paid_months: int) -> int {
    let dim = days_in_month_s(due_year(lease_start, paid_months), due_month(lease_start, paid_months));
    if payment_day <= dim { payment_day } else { dim }
}

/// Due timestamp of the instalment that follows `paid_months` paid ones.
pub open spec fn next_due_s(lease_start: int, payment_day: int, paid_months: int) -> int {
    civil_ts(
        due_year(lease_start, paid_months),
        due_month(lease_start, paid_months),
        due_day(lease_start, payment_day, paid_months),
    )
}

/// The instalment's month stays inside the supported year span.
pub open spec fn due_in_range(lease_start: int, paid_months: int) -> bool {
    due_year(lease_start, paid_months) <= 9999
}

/// Day clamping: the due date is always a valid calendar date, its day the
/// payment day clamped to the month's length; and its timestamp stays in
/// the supported span.
pub proof fn lemma_next_due_date(lease_start: int, payment_day: int, paid_months: int)
    requires
        ts_in_range(lease_start),
        1 <= payment_day,
        0 <= paid_months,
        due_in_range(lease_start, paid_months),
    ensures
        ({
            let ty = due_year(lease_start, paid_months);
            let tm = due_month(lease_start, paid_months);
            let td = due_day(lease_start, payment_day, paid_months);
            valid_date(ty, tm, td)
                && 1 <= td <= days_in_month_s(ty, tm)
                && date_of_ts(next_due_s(lease_start, payment_day, paid_months)) == (ty, tm, td)
                && ts_in_range(next_due_s(lease_start, payment_day, paid_months))
        }),
{
    lemma_date_of_window(lease_start);
    let months = date_of_ts(lease_start).1 - 1 + paid_months + 1;
    vstd::arithmetic::div_mod::lemma_div_pos_is_pos(months, 12);
    let ty = due_year(lease_start, paid_months);
    let tm = due_month(lease_start, paid_months);
    let td = due_day(lease_start, payment_day, paid_months);
    lemma_calendar_round_trip(ty, tm, td);
}

/// Consecutive due dates are at least a day apart.
pub proof fn lemma_next_due_step(lease_start: int, payment_day: int, paid_months: int)
    requires
        ts_in_range(lease_start),
        1 <= payment_day,
        0 <= paid_months,
        due_in_range(lease_start, paid_months + 1),
    ensures
        due_in_range(lease_start, paid_months),
        next_due_s(lease_start, payment_day, paid_months + 1)
            >= next_due_s(lease_start, payment_day, paid_months) + 86400,
{
    lemma_date_of_window(lease_start);
    let months = date_of_ts(lease_start).1 - 1 + paid_months + 1;
    vstd::arithmetic::div_mod::lemma_div_pos_is_pos(months, 12);
    vstd::arithmetic::div_mod::lemma_fundamental_div_mod(months, 12);
    let q = months / 12;
    let r = months % 12;
    if r == 11 {
        vstd::arithmetic::div_mod::lemma_fundamental_div_mod_converse(months + 1, 12, q + 1, 0);
    } else {
        vstd::arithmetic::div_mod::lemma_fundamental_div_mod_converse(months + 1, 12, q, r + 1);
    }
    lemma_next_due_date(lease_start, payment_day, paid_months);
    let ty = due_year(lease_start, paid_months);
    let tm = due_month(lease_start, paid_months);
    let td = due_day(lease_start, payment_day, paid_months);
    let ty2 = due_year(lease_start, paid_months + 1);
    let tm2 = due_month(lease_start, paid_months + 1);
    let td2 = due_day(lease_start, payment_day, paid_months + 1);
    if r == 11 {
        assert(ty2 == ty + 1 && tm == 12 && tm2 == 1);
        lemma_months_fill_year(ty);
        assert(day_index(ty2, tm2, td2) - day_index(ty, tm, td)
            == days_in_month_s(ty, 12) - td + td2);
    } else {
        assert(ty2 == ty && tm2 == tm + 1);
        assert(day_index(ty2, tm2, td2) - day_index(ty, tm, td)
            == days_in_month_s(ty, tm) - td + td2);
    }
}

/// If the schedule fits the calendar up to one instalment, it fits for
/// every earlier one.
pub proof fn lemma_due_in_range_monotone(lease_start: int, k1: int, k2: int)
    requires
        k1 <= k2,
        due_in_range(lease_start, k2),
    ensures
        due_in_range(lease_start, k1),
{
    let m0 = date_of_ts(lease_start).1;
    vstd::arithmetic::div_mod::lemma_div_is_ordered(m0 - 1 + k1 + 1, m0 - 1 + k2 + 1, 12);
}

/// A supported timestamp's day count lies inside the supported day span.
pub proof fn lemma_ts_in_range_days(ts: int)
    requires
        ts_in_range(ts),
    ensures
        0 <= ts / 86400 < day_span_end(),
{
    lemma_epoch_span();
    vstd::arithmetic::div_mod::lemma_fundamental_div_mod(ts, 86400);
    vstd::arithmetic::div_mod::lemma_mod_pos_bound(ts, 86400);
}

/// Crossing from `n - 1` to `n` raises `n / d` exactly when `d` divides `n`.
proof fn lemma_div_step(n: int, d: int)
    requires
        1 <= d,
        1 <= n,
    ensures
        n / d - (n - 1) / d == if n % d == 0 { 1int } else { 0int },
{
    vstd::arithmetic::div_mod::lemma_fundamental_div_mod(n, d);
    vstd::arithmetic::div_mod::lemma_mod_pos_bound(n, d);
    let q = n / d;
    let r = n % d;
    assert(n - 1 == q * d + (r - 1)) by (nonlinear_arith)
        requires n == d * q + r;
    if r == 0 {
        assert(n - 1 == (q - 1) * d + (d - 1)) by (nonlinear_arith)
            requires n == d * q;
        vstd::arithmetic::div_mod::lemma_fundamental_div_mod_converse(n - 1, d, q - 1, d - 1);
    } else {
        vstd::arithmetic::div_mod::lemma_fundamental_div_mod_converse(n - 1, d, q, r - 1);
    }
}

/// A multiple of 400 is a multiple of 100, and a multiple of 100 one of 4.
proof fn lemma_century_divisibility(n: int)
    requires
        0 <= n,
    ensures
        n % 400 == 0 ==> n % 100 == 0,
        n % 100 == 0 ==> n % 4 == 0,
{
    if n % 400 == 0 {
        vstd::arithmetic::div_mod::lemma_fundamental_div_mod(n, 400);
        vstd::arithmetic::div_mod::lemma_fundamental_div_mod_converse(n, 100, 4 * (n / 400), 0);
    }
    if n % 100 == 0 {
        vstd::arithmetic::div_mod::lemma_fundamental_div_mod(n, 100);
        vstd::arithmetic::div_mod::lemma_fundamental_div_mod_converse(n, 4, 25 * (n / 100), 0);
    }
}

/// Closed form for `days_before_year`, counting leap years by division.
proof fn lemma_days_before_year_closed(y: int)
    requires
        1970 <= y,
    ensures
        days_before_year(y) == 365 * (y - 1970) + (y - 1) / 4 - (y - 1) / 100 + (y - 1) / 400
            - 477,
    decreases y,
{
    if y > 1970 {
        lemma_days_before_year_closed(y - 1);
        lemma_div_step(y - 1, 4);
        lemma_div_step(y - 1, 100);
        lemma_div_step(y - 1, 400);
        lemma_century_divisibility(y - 1);
    }
}

/// The supported span ends at 10000-01-01, which is day 2932897 and
/// second 253402300800 of the Unix epoch.
pub proof fn lemma_epoch_span()
    ensures
        day_span_end() == 2932897,
{
    lemma_days_before_year_closed(10000);
}

/// Pure date arithmetic used by the lease engine.
pub struct TimeUtils;

impl TimeUtils {
    /// Whether `year` is a Gregorian leap year.
    pub fn is_leap_year(year: i32) -> (r: bool)
        requires
            0 <= year,
        ensures
            r == is_leap_s(year as int),
    {
        (year % 4 == 0 && year % 100 != 0) || (year % 400 == 0)
    }

    /// Number of days in `month` of `year`; 0 outside 1..=12.
    pub fn days_in_month(year: i32, month: u32) -> (r: u32)
        requires
            0 <= year,
        ensures
            r == days_in_month_s(year as int, month as int),
    {
        match month {
            1 | 3 | 5 | 7 | 8 | 10 | 12 => 31,
            4 | 6 | 9 | 11 => 30,
            2 => if Self::is_leap_year(year) { 29 } else { 28 },
            _ => 0,
        }
    }

    /// Civil date containing the given Unix timestamp.
    ///
    /// The result is the unique supported date whose day (midnight to
    /// midnight UTC) contains `timestamp`; time of day is discarded.
    pub fn timestamp_to_date(timestamp: i64) -> (r: (i32, u32, u32))
        requires
            ts_in_range(timestamp as int),
        ensures
            (r.0 as int, r.1 as int, r.2 as int) == date_of_ts(timestamp as int),
            valid_date(r.0 as int, r.1 as int, r.2 as int),
            civil_ts(r.0 as int, r.1 as int, r.2 as int) <= timestamp,
            timestamp < civil_ts(r.0 as int, r.1 as int, r.2 as int) + 86400,
    {
        let days_since: i64 = timestamp / 86400;
        let ghost days0: int = days_since as int;
        proof {
            lemma_ts_in_range_days(timestamp as int);
        }

        let mut year: i32 = 1970;
        let mut remaining: i64 = days_since;
        let mut len_year: i64 = if Self::is_leap_year(year) { 366 } else { 365 };
        while remaining >= len_year
            invariant
                1970 <= year <= 9999,
                len_year == days_in_year_s(year as int),
                days_before_year(year as int) + remaining == days0,
                0 <= remaining,
                days0 < day_span_end(),
            decreases remaining,
        {
            remaining -= len_year;
            proof {
                if year as int + 1 >= 10000 {
                    lemma_days_before_year_monotone(10000, year as int + 1);
                    assert(false);
                }
            }
            year += 1;
            len_year = if Self::is_leap_year(year) { 366 } else { 365 };
        }

        let mut month: u32 = 1;
        let mut len_month: i64 = Self::days_in_month(year, month) as i64;
        while remaining >= len_month
            invariant
                1 <= month <= 12,
                1970 <= year <= 9999,
                len_month == days_in_month_s(year as int, month as int),
                days_before_year(year as int) + days_before_month(year as int, month as int)
                    + remaining == days0,
                0 <= remaining,
                days0 - days_before_year(year as int) < days_in_year_s(year as int),
            decreases 12 - month,
        {
            remaining -= len_month;
            proof {
                if month as int + 1 > 12 {
                    lemma_months_fill_year(year as int);
                    assert(false);
                }
            }
            month += 1;
            len_month = Self::days_in_month(year, month) as i64;
        }

        let day = (remaining + 1) as u32;

        proof {
            lemma_year_step_from(days0, 1970, year as int);
            let off = days0 - days_before_year(year as int);
            lemma_month_step_from(off, year as int, 1, month as int);
            vstd::arithmetic::div_mod::lemma_fundamental_div_mod(timestamp as int, 86400);
        }

        (year, month, day)
    }

    /// Midnight UTC of the given civil date, as a Unix timestamp.
    pub fn date_to_timestamp(year: i32, month: u32, day: u32) -> (r: i64)
        requires
            1970 <= year <= 9999,
            1 <= month <= 12,
            1 <= day <= 31,
        ensures
            r == civil_ts(year as int, month as int, day as int),
    {
        let mut days: i64 = 0;

        let mut y: i32 = 1970;
        while y < year
            invariant
                1970 <= y <= year <= 9999,
                days == days_before_year(y as int),
                0 <= days <= 366 * (y - 1970),
            decreases year - y,
        {
            days += if Self::is_leap_year(y) { 366 } else { 365 };
            y += 1;
            proof { lemma_days_before_year_bound(y as int); }
        }

        let mut m: u32 = 1;
        while m < month
            invariant
                1 <= m <= month <= 12,
                1970 <= year <= 9999,
                days == days_before_year(year as int) + days_before_month(year as int, m as int),
                0 <= days <= 366 * (year - 1970) + 31 * (m - 1),
            decreases month - m,
        {
            days += Self::days_in_month(year, m) as i64;
            m += 1;
        }

        days += (day - 1) as i64;
        assert(0 <= days <= 366 * 8029 + 31 * 11 + 30);

        days * 86400
    }

    /// Whether a timestamp falls in the supported span (1970 through 9999).
    pub fn timestamp_in_range(timestamp: i64) -> (r: bool)
        ensures
            r == ts_in_range(timestamp as int),
    {
        0 <= timestamp && timestamp < 253402300800
    }

    /// Due timestamp of the rent instalment that follows `paid_months` paid
    /// ones: `paid_months + 1` calendar months past the lease's start month,
    /// on `payment_day` clamped to that month's length.
    pub fn calculate_next_payment_due(lease_start: i64, payment_day: u8, paid_months: u32) -> (r:
        i64)
        requires
            ts_in_range(lease_start as int),
            1 <= payment_day,
            due_in_range(lease_start as int, paid_months as int),
        ensures
            r == next_due_s(lease_start as int, payment_day as int, paid_months as int),
            ts_in_range(r as int),
    {
        proof {
            lemma_next_due_date(lease_start as int, payment_day as int, paid_months as int);
        }
        let (start_year, start_month, _) = Self::timestamp_to_date(lease_start);

        let total_months: u64 = (start_month as u64 - 1) + paid_months as u64 + 1;
        let target_year: i32 = start_year + (total_months / 12) as i32;
        let target_month: u32 = (total_months % 12) as u32 + 1;

        let max_day = Self::days_in_month(target_year, target_month);
        let actual_day: u32 = if (payment_day as u32) <= max_day {
            payment_day as u32
        } else {
            max_day
        };

        Self::date_to_timestamp(target_year, target_month, actual_day)
    }

    /// Whether the instalment after `paid_months` paid ones is already due.
    pub fn is_rent_due(current_time: i64, lease_start: i64, payment_day: u8, paid_months: u32) -> (r:
        bool)
        requires
            ts_in_range(lease_start as int),
            1 <= payment_day,
            due_in_range(lease_start as int, paid_months as int),
        ensures
            r == (current_time as int >= next_due_s(
                lease_start as int,
                payment_day as int,
                paid_months as int,
            )),
    {
        let next_due_date = Self::calculate_next_payment_due(lease_start, payment_day, paid_months);
        current_time >= next_due_date
    }

    /// How many instalments have fallen due by `current_time`: the least
    /// count whose next due date is still in the future.
    pub fn calculate_months_due(current_time: i64, lease_start: i64, payment_day: u8) -> (r: u32)
        requires
            ts_in_range(lease_start as int),
            ts_in_range(current_time as int),
            1 <= payment_day,
            date_of_ts(lease_start as int).0 <= 9997,
            date_of_ts(current_time as int).0 <= 9997,
        ensures
            forall|k: int|
                0 <= k < r ==> next_due_s(lease_start as int, payment_day as int, k)
                    <= current_time,
            next_due_s(lease_start as int, payment_day as int, r as int) > current_time,
    {
        let ghost start: int = lease_start as int;
        let ghost pd: int = payment_day as int;

        proof {
            lemma_date_of_window(start);
            vstd::arithmetic::div_mod::lemma_div_pos_is_pos(date_of_ts(start).1, 12);
            vstd::arithmetic::div_mod::lemma_multiply_divide_le(date_of_ts(start).1, 12, 1);
            lemma_epoch_span();
        }
        let mut months_due: u32 = 0;
        let mut next_due = Self::calculate_next_payment_due(lease_start, payment_day, 0);
        proof {
            lemma_next_due_date(start, pd, 0);
            lemma_civil_ts_in_range(due_year(start, 0), due_month(start, 0), due_day(start, pd, 0));
        }

        while current_time >= next_due
            invariant
                start == lease_start as int,
                ts_in_range(start),
                ts_in_range(current_time as int),
                1 <= pd == payment_day,
                date_of_ts(current_time as int).0 <= 9997,
                due_in_range(start, months_due as int),
                next_due == next_due_s(start, pd, months_due as int),
                ts_in_range(next_due as int),
                forall|k: int| 0 <= k < months_due ==> next_due_s(start, pd, k) <= current_time,
                next_due >= next_due_s(start, pd, 0) + months_due * 86400,
                0 <= next_due_s(start, pd, 0),
                months_due <= 2932897,
            decreases 2932897 - months_due,
        {
            proof {
                // The month just found due lies no later than `current_time`,
                // so the following month is still inside the supported span.
                let k = months_due as int;
                lemma_date_of_window(start);
                lemma_next_due_date(start, pd, k);
                lemma_year_of_ts_monotone(next_due as int, current_time as int);
                let months = date_of_ts(start).1 - 1 + k + 1;
                vstd::arithmetic::div_mod::lemma_div_pos_is_pos(months, 12);
                vstd::arithmetic::div_mod::lemma_fundamental_div_mod(months, 12);
                vstd::arithmetic::div_mod::lemma_mod_pos_bound(months, 12);
                let q = months / 12;
                let rr = months % 12;
                if rr == 11 {
                    vstd::arithmetic::div_mod::lemma_fundamental_div_mod_converse(
                        months + 1, 12, q + 1, 0,
                    );
                } else {
                    vstd::arithmetic::div_mod::lemma_fundamental_div_mod_converse(
                        months + 1, 12, q, rr + 1,
                    );
                }
                assert(due_in_range(start, k + 1));
                lemma_next_due_step(start, pd, k);
                lemma_next_due_date(start, pd, k + 1);
                lemma_civil_ts_in_range(
                    due_year(start, k + 1),
                    due_month(start, k + 1),
                    due_day(start, pd, k + 1),
                );
            }
            months_due += 1;
            next_due = Self::calculate_next_payment_due(lease_start, payment_day, months_due);
        }

        months_due
    }
}

} // verus!
