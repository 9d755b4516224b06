//! Calendar arithmetic over a minute-precision, UTC-anchored timeline.
//!
//! An [`Instant`] is a point in time stored both as minutes since the Unix
//! epoch and as the civil (year, month, day, hour, minute) fields that those
//! minutes denote in UTC; its well-formedness invariant ties the two together.

use vstd::prelude::*;

verus! {

/// Days from 0001-01-01 (day 0 of the proleptic Gregorian calendar)
/// to 1970-01-01, the Unix epoch.
pub const EPOCH_DAY: i64 = 719162;

/// Minutes from 0001-01-01T00:00 to the Unix epoch.
pub const EPOCH_DAY_MINUTES: i64 = 719162 * 1440;

/// Minutes since the Unix epoch of 0002-01-01T00:00, the earliest instant
/// the library represents (one year of slack keeps timezone-shifted local
/// times inside the calendar's range).
pub const MIN_EPOCH_MINUTES: i64 = -1035067680;

/// Minutes since the Unix epoch of 9998-12-31T23:59, the latest instant the
/// library represents.
pub const MAX_EPOCH_MINUTES: i64 = 4222846079;

pub open spec fn is_leap_year(y: int) -> bool {
    y % 4 == 0 && (y % 100 != 0 || y % 400 == 0)
}

pub open spec fn spec_days_in_year(y: int) -> int {
    if is_leap_year(y) {
        366
    } else {
        365
    }
}

pub open spec fn spec_days_in_month(y: int, m: int) -> int {
    if m == 2 {
        if is_leap_year(y) {
            29
        } else {
            28
        }
    } else if m == 4 || m == 6 || m == 9 || m == 11 {
        30
    } else {
        31
    }
}

/// Days from 0001-01-01 to the first day of year `y` (closed form).
pub open spec fn days_before_year(y: int) -> int {
    365 * (y - 1) + (y - 1) / 4 - (y - 1) / 100 + (y - 1) / 400
}

/// Days from the first day of year `y` to the first day of its month `m`.
pub open spec fn days_before_month(y: int, m: int) -> int
    decreases m,
{
    if m <= 1 {
        0
    } else {
        days_before_month(y, m - 1) + spec_days_in_month(y, m - 1)
    }
}

/// Day number of a civil date, counting 0001-01-01 as day 0.
pub open spec fn day_index(y: int, m: int, d: int) -> int {
    days_before_year(y) + days_before_month(y, m) + (d - 1)
}

pub open spec fn valid_date(y: int, m: int, d: int) -> bool {
    1 <= y <= 9999 && 1 <= m <= 12 && 1 <= d <= spec_days_in_month(y, m)
}

/// Minutes since the Unix epoch of a civil date-time read as UTC.
pub open spec fn epoch_minutes_of(y: int, m: int, d: int, h: int, mi: int) -> int {
    (day_index(y, m, d) - EPOCH_DAY) * 1440 + h * 60 + mi
}

/// The civil fields `(y, m, d, h, mi)` denote exactly the timeline point
/// `total` (in minutes since the Unix epoch).
pub open spec fn represents_minutes(y: int, m: int, d: int, h: int, mi: int, total: int) -> bool {
    valid_date(y, m, d) && 0 <= h < 24 && 0 <= mi < 60 && epoch_minutes_of(y, m, d, h, mi)
        == total
}

/// Weekday index of a day number: 0 is Monday through 6 is Sunday
/// (0001-01-01 was a Monday).
pub open spec fn weekday_index_of_day(day: int) -> int {
    day % 7
}

#[derive(Clone, Copy, Debug, PartialEq, Eq, Structural)]
pub enum Weekday {
    Mon,
    Tue,
    Wed,
    Thu,
    Fri,
    Sat,
    Sun,
}

pub open spec fn weekday_num(w: Weekday) -> int {
    match w {
        Weekday::Mon => 0,
        Weekday::Tue => 1,
        Weekday::Wed => 2,
        Weekday::Thu => 3,
        Weekday::Fri => 4,
        Weekday::Sat => 5,
        Weekday::Sun => 6,
    }
}

pub open spec fn spec_weekday_of_num(n: int) -> Weekday {
    if n == 0 {
        Weekday::Mon
    } else if n == 1 {
        Weekday::Tue
    } else if n == 2 {
        Weekday::Wed
    } else if n == 3 {
        Weekday::Thu
    } else if n == 4 {
        Weekday::Fri
    } else if n == 5 {
        Weekday::Sat
    } else {
        Weekday::Sun
    }
}

pub fn weekday_of_num(n: u64) -> (w: Weekday)
    requires
        n < 7,
    ensures
        w == spec_weekday_of_num(n as int),
        weekday_num(w) == n,
{
    if n == 0 {
        Weekday::Mon
    } else if n == 1 {
        Weekday::Tue
    } else if n == 2 {
        Weekday::Wed
    } else if n == 3 {
        Weekday::Thu
    } else if n == 4 {
        Weekday::Fri
    } else if n == 5 {
        Weekday::Sat
    } else {
        Weekday::Sun
    }
}

/// Full English name of a weekday, capitalized.
pub open spec fn spec_weekday_full_name(w: Weekday) -> Seq<char> {
    match w {
        Weekday::Mon => "Monday"@,
        Weekday::Tue => "Tuesday"@,
        Weekday::Wed => "Wednesday"@,
        Weekday::Thu => "Thursday"@,
        Weekday::Fri => "Friday"@,
        Weekday::Sat => "Saturday"@,
        Weekday::Sun => "Sunday"@,
    }
}

pub fn weekday_full_name(w: Weekday) -> (r: &'static str)
    ensures
        r@ == spec_weekday_full_name(w),
{
    match w {
        Weekday::Mon => "Monday",
        Weekday::Tue => "Tuesday",
        Weekday::Wed => "Wednesday",
        Weekday::Thu => "Thursday",
        Weekday::Fri => "Friday",
        Weekday::Sat => "Saturday",
        Weekday::Sun => "Sunday",
    }
}

/// Three-letter English abbreviation of a month, capitalized.
pub open spec fn spec_month_abbr_display(m: int) -> Seq<char> {
    if m == 1 {
        "Jan"@
    } else if m == 2 {
        "Feb"@
    } else if m == 3 {
        "Mar"@
    } else if m == 4 {
        "Apr"@
    } else if m == 5 {
        "May"@
    } else if m == 6 {
        "Jun"@
    } else if m == 7 {
        "Jul"@
    } else if m == 8 {
        "Aug"@
    } else if m == 9 {
        "Sep"@
    } else if m == 10 {
        "Oct"@
    } else if m == 11 {
        "Nov"@
    } else {
        "Dec"@
    }
}

pub fn month_abbr_display(m: u8) -> (r: &'static str)
    requires
        1 <= m <= 12,
    ensures
        r@ == spec_month_abbr_display(m as int),
{
    if m == 1 {
        "Jan"
    } else if m == 2 {
        "Feb"
    } else if m == 3 {
        "Mar"
    } else if m == 4 {
        "Apr"
    } else if m == 5 {
        "May"
    } else if m == 6 {
        "Jun"
    } else if m == 7 {
        "Jul"
    } else if m == 8 {
        "Aug"
    } else if m == 9 {
        "Sep"
    } else if m == 10 {
        "Oct"
    } else if m == 11 {
        "Nov"
    } else {
        "Dec"
    }
}

/// Mapping a weekday to its index and back is the identity.
pub proof fn lemma_weekday_num_roundtrip(w: Weekday)
    ensures
        spec_weekday_of_num(weekday_num(w)) == w,
{
}

proof fn lemma_div_step(x: int, d: int)
    requires
        x >= 1,
        d >= 1,
    ensures
        x / d - (x - 1) / d == if x % d == 0 {
            1int
        } else {
            0int
        },
{
    let q = (x - 1) / d;
    let r = (x - 1) % d;
    vstd::arithmetic::div_mod::lemma_fundamental_div_mod(x - 1, d);
    vstd::arithmetic::div_mod::lemma_mod_bound(x - 1, d);
    if r == d - 1 {
        assert(x == (q + 1) * d + 0) by (nonlinear_arith)
            requires
                x - 1 == d * q + r,
                r == d - 1,
        ;
        vstd::arithmetic::div_mod::lemma_fundamental_div_mod_converse(x, d, q + 1, 0);
    } else {
        assert(x == q * d + (r + 1)) by (nonlinear_arith)
            requires
                x - 1 == d * q + r,
        ;
        vstd::arithmetic::div_mod::lemma_fundamental_div_mod_converse(x, d, q, r + 1);
    }
}

proof fn lemma_mod_chain(x: int)
    requires
        x % 400 == 0,
    ensures
        x % 100 == 0,
        x % 4 == 0,
{
    let q = x / 400;
    vstd::arithmetic::div_mod::lemma_fundamental_div_mod(x, 400);
    assert(x == 400 * q);
    assert(x == 100 * (4 * q) + 0) by (nonlinear_arith)
        requires
            x == 400 * q,
    ;
    vstd::arithmetic::div_mod::lemma_fundamental_div_mod_converse(x, 100, 4 * q, 0);
    assert(x == 4 * (100 * q) + 0) by (nonlinear_arith)
        requires
            x == 400 * q,
    ;
    vstd::arithmetic::div_mod::lemma_fundamental_div_mod_converse(x, 4, 100 * q, 0);
}

proof fn lemma_mod_chain_100(x: int)
    requires
        x % 100 == 0,
    ensures
        x % 4 == 0,
{
    let q = x / 100;
    vstd::arithmetic::div_mod::lemma_fundamental_div_mod(x, 100);
    assert(x == 4 * (25 * q) + 0) by (nonlinear_arith)
        requires
            x == 100 * q,
    ;
    vstd::arithmetic::div_mod::lemma_fundamental_div_mod_converse(x, 4, 25 * q, 0);
}

/// One year's step of the closed-form day count.
pub proof fn lemma_days_before_year_delta(y: int)
    requires
        y >= 1,
    ensures
        days_before_year(y + 1) == days_before_year(y) + spec_days_in_year(y),
{
    lemma_div_step(y, 4);
    lemma_div_step(y, 100);
    lemma_div_step(y, 400);
    if y % 400 == 0 {
        lemma_mod_chain(y);
    } else if y % 100 == 0 {
        lemma_mod_chain_100(y);
    }
}

pub proof fn lemma_days_before_year_mono(a: int, b: int)
    requires
        1 <= a <= b,
    ensures
        days_before_year(a) <= days_before_year(b),
        days_before_year(a) + 365 * (b - a) <= days_before_year(b),
    decreases b - a,
{
    if a < b {
        lemma_days_before_year_mono(a, b - 1);
        lemma_days_before_year_delta(b - 1);
    }
}

pub proof fn lemma_days_before_month_mono(y: int, a: int, b: int)
    requires
        1 <= a <= b,
    ensures
        days_before_month(y, a) <= days_before_month(y, b),
    decreases b - a,
{
    if a < b {
        lemma_days_before_month_mono(y, a, b - 1);
    }
}

/// The twelve months sum to the year's day count.
pub proof fn lemma_months_sum(y: int)
    ensures
        days_before_month(y, 13) == spec_days_in_year(y),
{
    reveal_with_fuel(days_before_month, 13);
}

/// A valid date's day number lies within the day range of its year.
pub proof fn lemma_day_index_bounds(y: int, m: int, d: int)
    requires
        valid_date(y, m, d),
    ensures
        days_before_year(y) <= day_index(y, m, d),
        day_index(y, m, d) < days_before_year(y + 1),
{
    lemma_days_before_month_mono(y, 1, m);
    lemma_days_before_month_mono(y, m + 1, 13);
    lemma_months_sum(y);
    lemma_days_before_year_delta(y);
}

/// Year containing day number `day` together with the days left over,
/// found by walking years upward from `y`.
pub open spec fn year_rem_of_day(day: int, y: int) -> (int, int)
    decreases day,
{
    if day < spec_days_in_year(y) {
        (y, day)
    } else {
        year_rem_of_day(day - spec_days_in_year(y), y + 1)
    }
}

/// Month containing a day offset `rem` within year `y` together with the
/// days left over, walking months upward from `m`.
pub open spec fn month_rem_of(y: int, rem: int, m: int) -> (int, int)
    decreases 12 - m,
{
    if m >= 12 || rem < spec_days_in_month(y, m) {
        (m, rem)
    } else {
        month_rem_of(y, rem - spec_days_in_month(y, m), m + 1)
    }
}

/// Civil date `(year, month, day)` of a day number.
pub open spec fn civil_of_day_spec(day: int) -> (int, int, int) {
    let yr = year_rem_of_day(day, 1);
    let mr = month_rem_of(yr.0, yr.1, 1);
    (yr.0, mr.0, mr.1 + 1)
}

/// Civil date-time `(year, month, day, hour, minute)` of a timeline point
/// in minutes since the Unix epoch.
pub open spec fn civil_of_minutes_spec(lm: int) -> (int, int, int, int, int) {
    let t = lm + EPOCH_DAY_MINUTES;
    let day = t / 1440;
    let mo = t % 1440;
    let c = civil_of_day_spec(day);
    (c.0, c.1, c.2, mo / 60, mo % 60)
}

/// Weekday index of the day containing a timeline point.
pub open spec fn weekday_of_minutes(lm: int) -> int {
    weekday_index_of_day((lm + EPOCH_DAY_MINUTES) / 1440)
}

fn is_leap_year_x(y: u64) -> (r: bool)
    ensures
        r == is_leap_year(y as int),
{
    y % 4 == 0 && (y % 100 != 0 || y % 400 == 0)
}

fn days_in_year_x(y: u64) -> (r: u64)
    ensures
        r == spec_days_in_year(y as int),
{
    if is_leap_year_x(y) {
        366
    } else {
        365
    }
}

pub fn days_in_month_x(y: u64, m: u64) -> (r: u64)
    ensures
        r == spec_days_in_month(y as int, m as int),
{
    if m == 2 {
        if is_leap_year_x(y) {
            29
        } else {
            28
        }
    } else if m == 4 || m == 6 || m == 9 || m == 11 {
        30
    } else {
        31
    }
}

fn days_before_year_x(y: u64) -> (r: u64)
    requires
        1 <= y <= 10000,
    ensures
        r == days_before_year(y as int),
{
    let x = y - 1;
    x * 365 + x / 4 - x / 100 + x / 400
}

fn days_before_month_x(y: u64, m: u64) -> (r: u64)
    requires
        1 <= y <= 9999,
        1 <= m <= 13,
    ensures
        r == days_before_month(y as int, m as int),
        r <= 366,
{
    let mut acc: u64 = 0;
    let mut i: u64 = 1;
    while i < m
        invariant
            1 <= i <= m <= 13,
            1 <= y <= 9999,
            acc == days_before_month(y as int, i as int),
            acc <= 366 * i,
        decreases m - i,
    {
        acc = acc + days_in_month_x(y, i);
        i = i + 1;
    }
    proof {
        lemma_months_sum(y as int);
        lemma_days_before_month_mono(y as int, m as int, 13);
    }
    acc
}

/// Civil date of a day number, by walking years and then months.
pub fn civil_of_day(day: u64) -> (r: (i64, u8, u8))
    requires
        day <= 3652058,
    ensures
        valid_date(r.0 as int, r.1 as int, r.2 as int),
        day_index(r.0 as int, r.1 as int, r.2 as int) == day,
        (r.0 as int, r.1 as int, r.2 as int) == civil_of_day_spec(day as int),
{
    let mut y: u64 = 1;
    let mut rem: u64 = day;
    loop
        invariant
            1 <= y <= 9999,
            days_before_year(y as int) + rem == day,
            day <= 3652058,
            year_rem_of_day(day as int, 1) == year_rem_of_day(rem as int, y as int),
        ensures
            1 <= y <= 9999,
            days_before_year(y as int) + rem == day,
            rem < spec_days_in_year(y as int),
            year_rem_of_day(day as int, 1) == (y as int, rem as int),
        decreases rem,
    {
        let diy = days_in_year_x(y);
        if rem < diy {
            break ;
        }
        proof {
            lemma_days_before_year_delta(y as int);
            if y == 9999 {
                assert(days_before_year(10000) == 3652059);
                assert(false);
            }
        }
        rem = rem - diy;
        y = y + 1;
    }
    let ghost rem0: int = rem as int;
    let mut m: u64 = 1;
    let mut rem2: u64 = rem;
    loop
        invariant
            1 <= m <= 12,
            1 <= y <= 9999,
            days_before_month(y as int, m as int) + rem2 == rem0,
            rem0 < spec_days_in_year(y as int),
            month_rem_of(y as int, rem0, 1) == month_rem_of(y as int, rem2 as int, m as int),
        ensures
            1 <= m <= 12,
            days_before_month(y as int, m as int) + rem2 == rem0,
            rem2 < spec_days_in_month(y as int, m as int),
            month_rem_of(y as int, rem0, 1) == (m as int, rem2 as int),
        decreases rem2,
    {
        let dim = days_in_month_x(y, m);
        if rem2 < dim {
            break ;
        }
        proof {
            if m == 12 {
                lemma_months_sum(y as int);
                assert(false);
            }
        }
        rem2 = rem2 - dim;
        m = m + 1;
    }
    (y as i64, m as u8, (rem2 + 1) as u8)
}

/// A point in time, stored as minutes since the Unix epoch together with
/// the UTC civil fields those minutes denote.
#[derive(Clone, Copy, Debug, PartialEq, Eq, Structural)]
pub struct Instant {
    pub minutes: i64,
    pub year: i64,
    pub month: u8,
    pub day: u8,
    pub hour: u8,
    pub minute: u8,
}

/// A civil date-time in some display timezone, together with its weekday.
#[derive(Clone, Copy, Debug, PartialEq, Eq, Structural)]
pub struct LocalTime {
    pub year: i64,
    pub month: u8,
    pub day: u8,
    pub hour: u8,
    pub minute: u8,
    pub weekday: Weekday,
}

impl Instant {
    /// The civil fields are a valid date-time that denotes `minutes`; the
    /// year leaves a year of slack at each end of the supported calendar so
    /// that any timezone shift of under a day stays in range.
    pub open spec fn wf(self) -> bool {
        represents_minutes(
            self.year as int,
            self.month as int,
            self.day as int,
            self.hour as int,
            self.minute as int,
            self.minutes as int,
        ) && 2 <= self.year <= 9998
    }

    /// Build an instant from UTC civil fields; `None` exactly when the
    /// fields are not a valid date-time in the supported year range.
    pub fn from_ymd_hm(year: i64, month: u8, day: u8, hour: u8, minute: u8) -> (r: Option<
        Instant,
    >)
        ensures
            r is Some <==> (2 <= year <= 9998 && valid_date(year as int, month as int, day as int)
                && hour < 24 && minute < 60),
            r matches Some(i) ==> i.wf() && i.year == year && i.month == month && i.day == day
                && i.hour == hour && i.minute == minute,
    {
        if year < 2 || year > 9998 || month < 1 || month > 12 {
            return None;
        }
        let dim = days_in_month_x(year as u64, month as u64);
        if day < 1 || day as u64 > dim || hour >= 24 || minute >= 60 {
            return None;
        }
        proof {
            lemma_day_index_bounds(year as int, month as int, day as int);
            lemma_days_before_year_mono(2, year as int);
            lemma_days_before_year_mono(year as int, 9999);
            lemma_days_before_year_mono(year as int + 1, 9999);
            assert(days_before_year(2) == 365);
            assert(days_before_year(9999) == 3651694);
        }
        let di = days_before_year_x(year as u64) + days_before_month_x(year as u64, month as u64)
            + (day as u64 - 1);
        let minutes = (di as i64 - EPOCH_DAY) * 1440 + (hour as i64) * 60 + (minute as i64);
        Some(Instant { minutes, year, month, day, hour, minute })
    }

    /// Build an instant from minutes since the Unix epoch.
    pub fn from_epoch_minutes(minutes: i64) -> (r: Instant)
        requires
            MIN_EPOCH_MINUTES <= minutes <= MAX_EPOCH_MINUTES,
        ensures
            r.wf(),
            r.minutes == minutes,
    {
        let t = (minutes + EPOCH_DAY_MINUTES) as u64;
        let day = t / 1440;
        let mo = t % 1440;
        let (y, m, d) = civil_of_day(day);
        proof {
            lemma_days_before_year_mono(1, y as int);
            lemma_days_before_year_mono(y as int + 1, 10000);
            lemma_day_index_bounds(y as int, m as int, d as int);
            if y < 2 {
                lemma_days_before_year_delta(1);
                assert(false);
            }
            if y > 9998 {
                assert(days_before_year(9999) == 3651694);
                assert(false);
            }
        }
        Instant {
            minutes,
            year: y,
            month: m,
            day: d,
            hour: (mo / 60) as u8,
            minute: (mo % 60) as u8,
        }
    }

    /// Weekday of the instant's UTC date.
    pub fn weekday(&self) -> (w: Weekday)
        requires
            self.wf(),
        ensures
            weekday_num(w) == weekday_index_of_day(
                day_index(self.year as int, self.month as int, self.day as int),
            ),
    {
        let di = days_before_year_x(self.year as u64) + days_before_month_x(
            self.year as u64,
            self.month as u64,
        ) + (self.day as u64 - 1);
        weekday_of_num(di % 7)
    }
}

/// Civil date-time and weekday of a timeline point, used to display an
/// instant after shifting it by a timezone offset.
pub fn local_time_of_minutes(lm: i64) -> (r: LocalTime)
    requires
        MIN_EPOCH_MINUTES - 1440 <= lm <= MAX_EPOCH_MINUTES + 1440,
    ensures
        ({
            let c = civil_of_minutes_spec(lm as int);
            r.year == c.0 && r.month == c.1 && r.day == c.2 && r.hour == c.3 && r.minute == c.4
        }),
        represents_minutes(
            r.year as int,
            r.month as int,
            r.day as int,
            r.hour as int,
            r.minute as int,
            lm as int,
        ),
        weekday_num(r.weekday) == weekday_of_minutes(lm as int),
{
    let t = (lm + EPOCH_DAY_MINUTES) as u64;
    let day = t / 1440;
    let mo = t % 1440;
    let (y, m, d) = civil_of_day(day);
    LocalTime {
        year: y,
        month: m,
        day: d,
        hour: (mo / 60) as u8,
        minute: (mo % 60) as u8,
        weekday: weekday_of_num(day % 7),
    }
}

/// Day number of a valid civil date, counting 0001-01-01 as day 0.
pub fn day_index_x(y: i64, m: u8, d: u8) -> (r: u64)
    requires
        valid_date(y as int, m as int, d as int),
    ensures
        r == day_index(y as int, m as int, d as int),
        r <= 3652058,
{
    proof {
        lemma_day_index_bounds(y as int, m as int, d as int);
        lemma_days_before_year_mono(y as int, 10000);
        lemma_days_before_year_mono(y as int + 1, 10000);
        assert(days_before_year(10000) == 3652059);
    }
    days_before_year_x(y as u64) + days_before_month_x(y as u64, m as u64) + (d as u64 - 1)
}

/// Minutes since the Unix epoch of a valid civil date-time read as UTC.
pub fn epoch_minutes_x(y: i64, m: u8, d: u8, h: u8, mi: u8) -> (r: i64)
    requires
        valid_date(y as int, m as int, d as int),
        h < 24,
        mi < 60,
    ensures
        r == epoch_minutes_of(y as int, m as int, d as int, h as int, mi as int),
        MIN_EPOCH_MINUTES - 1486080 <= r <= MAX_EPOCH_MINUTES + 1486080,
{
    proof {
        lemma_day_index_bounds(y as int, m as int, d as int);
        lemma_days_before_year_mono(1, y as int);
        lemma_days_before_year_mono(y as int, 9999);
        lemma_days_before_year_mono(y as int + 1, 10000);
        assert(days_before_year(1) == 0);
        assert(days_before_year(9999) == 3651694);
        assert(days_before_year(10000) == 3652059);
    }
    let di = days_before_year_x(y as u64) + days_before_month_x(y as u64, m as u64) + (d as u64
        - 1);
    (di as i64 - EPOCH_DAY) * 1440 + (h as i64) * 60 + (mi as i64)
}

/// A well-formed instant's minute count stays within the supported range.
pub proof fn lemma_wf_minutes_range(i: Instant)
    requires
        i.wf(),
    ensures
        MIN_EPOCH_MINUTES <= i.minutes <= MAX_EPOCH_MINUTES,
{
    lemma_day_index_bounds(i.year as int, i.month as int, i.day as int);
    lemma_days_before_year_mono(2, i.year as int);
    lemma_days_before_year_mono(i.year as int + 1, 9999);
    assert(days_before_year(2) == 365);
    assert(days_before_year(9999) == 3651694);
}

} // verus!
