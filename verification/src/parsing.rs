//! Staged date/time parsing with graceful degradation.
//!
//! A date phrase such as `"Sun Jul 27"` and a time of day such as `"15:30"`
//! are turned into a UTC [`Instant`] plus a [`ParseMetadata`] audit trail.
//! Parsing tries, in order: an exact match that insists on a correct
//! weekday, a weekday-tolerant match that records any mismatch, and the
//! same exact match under the two adjacent years.

use vstd::prelude::*;
use vstd::string::StrSliceExecFns;
use vstd::string::StringExecFns;
use crate::text::ci_prefix;
use crate::text::dec_int;
use crate::text::seq_eq_ci;
use crate::text::split_tokens;
use crate::text::eq_ignore_case;
use crate::text::starts_with_ci;
use crate::text::i64_to_string;
use crate::text::tokens_of;
use crate::time::day_index;
use crate::time::epoch_minutes_of;
use crate::time::spec_weekday_full_name;
use crate::time::valid_date;
use crate::time::weekday_full_name;
use crate::time::weekday_index_of_day;
use crate::time::weekday_num;
use crate::time::days_in_month_x;
use crate::time::Instant;
use crate::time::Weekday;
use crate::time::MAX_EPOCH_MINUTES;
use crate::time::MIN_EPOCH_MINUTES;
use crate::tz::resolve_local_minutes;
use crate::tz::tz_local_single;
use crate::ScrapeError;

verus! {

/// How a date phrase was understood: the audit trail of one parse.
#[derive(Debug, Clone)]
pub struct ParseMetadata {
    pub original_source: String,
    pub weekday_mismatch: Option<WeekdayMismatch>,
    pub timezone_assumptions: String,
    pub parsing_strategy: ParsingStrategy,
}

/// A stated weekday that disagreed with the weekday computed from the
/// parsed date.
#[derive(Debug, Clone)]
pub struct WeekdayMismatch {
    pub claimed_weekday: String,
    pub actual_weekday: String,
    pub date: String,
}

/// Which parsing stage produced the result.
#[derive(Debug, Clone)]
pub enum ParsingStrategy {
    ExactMatch,
    WeekdayTolerant,
    YearAssumption(i64),
    TimezoneFallback(String),
}

pub ghost enum StrategyView {
    ExactMatch,
    WeekdayTolerant,
    YearAssumption(int),
    TimezoneFallback(Seq<char>),
}

pub ghost struct WeekdayMismatchView {
    pub claimed_weekday: Seq<char>,
    pub actual_weekday: Seq<char>,
    pub date: Seq<char>,
}

pub ghost struct ParseMetadataView {
    pub original_source: Seq<char>,
    pub weekday_mismatch: Option<WeekdayMismatchView>,
    pub timezone_assumptions: Seq<char>,
    pub parsing_strategy: StrategyView,
}

impl View for ParsingStrategy {
    type V = StrategyView;

    open spec fn view(&self) -> StrategyView {
        match self {
            ParsingStrategy::ExactMatch => StrategyView::ExactMatch,
            ParsingStrategy::WeekdayTolerant => StrategyView::WeekdayTolerant,
            ParsingStrategy::YearAssumption(y) => StrategyView::YearAssumption(*y as int),
            ParsingStrategy::TimezoneFallback(tz) => StrategyView::TimezoneFallback(tz@),
        }
    }
}

impl View for WeekdayMismatch {
    type V = WeekdayMismatchView;

    open spec fn view(&self) -> WeekdayMismatchView {
        WeekdayMismatchView {
            claimed_weekday: self.claimed_weekday@,
            actual_weekday: self.actual_weekday@,
            date: self.date@,
        }
    }
}

impl View for ParseMetadata {
    type V = ParseMetadataView;

    open spec fn view(&self) -> ParseMetadataView {
        ParseMetadataView {
            original_source: self.original_source@,
            weekday_mismatch: match &self.weekday_mismatch {
                Some(m) => Some(m@),
                None => None,
            },
            timezone_assumptions: self.timezone_assumptions@,
            parsing_strategy: self.parsing_strategy@,
        }
    }
}

/// Month named by a token, with whether the token was the three-letter
/// abbreviation (`true`) or the full name (`false`); ASCII
/// case-insensitive.
pub open spec fn month_of_token(t: Seq<char>) -> Option<(int, bool)> {
    if seq_eq_ci(t, "jan"@) {
        Some((1int, true))
    } else if seq_eq_ci(t, "january"@) {
        Some((1int, false))
    } else if seq_eq_ci(t, "feb"@) {
        Some((2int, true))
    } else if seq_eq_ci(t, "february"@) {
        Some((2int, false))
    } else if seq_eq_ci(t, "mar"@) {
        Some((3int, true))
    } else if seq_eq_ci(t, "march"@) {
        Some((3int, false))
    } else if seq_eq_ci(t, "apr"@) {
        Some((4int, true))
    } else if seq_eq_ci(t, "april"@) {
        Some((4int, false))
    } else if seq_eq_ci(t, "may"@) {
        Some((5int, true))
    } else if seq_eq_ci(t, "jun"@) {
        Some((6int, true))
    } else if seq_eq_ci(t, "june"@) {
        Some((6int, false))
    } else if seq_eq_ci(t, "jul"@) {
        Some((7int, true))
    } else if seq_eq_ci(t, "july"@) {
        Some((7int, false))
    } else if seq_eq_ci(t, "aug"@) {
        Some((8int, true))
    } else if seq_eq_ci(t, "august"@) {
        Some((8int, false))
    } else if seq_eq_ci(t, "sep"@) {
        Some((9int, true))
    } else if seq_eq_ci(t, "september"@) {
        Some((9int, false))
    } else if seq_eq_ci(t, "oct"@) {
        Some((10int, true))
    } else if seq_eq_ci(t, "october"@) {
        Some((10int, false))
    } else if seq_eq_ci(t, "nov"@) {
        Some((11int, true))
    } else if seq_eq_ci(t, "november"@) {
        Some((11int, false))
    } else if seq_eq_ci(t, "dec"@) {
        Some((12int, true))
    } else if seq_eq_ci(t, "december"@) {
        Some((12int, false))
    } else {
        None
    }
}

fn month_from_token(t: &str) -> (r: Option<(u8, bool)>)
    ensures
        match r {
            Some(p) => month_of_token(t@) == Some((p.0 as int, p.1)) && 1 <= p.0 <= 12,
            None => month_of_token(t@) is None,
        },
{
    if eq_ignore_case(t, "jan") {
        Some((1, true))
    } else if eq_ignore_case(t, "january") {
        Some((1, false))
    } else if eq_ignore_case(t, "feb") {
        Some((2, true))
    } else if eq_ignore_case(t, "february") {
        Some((2, false))
    } else if eq_ignore_case(t, "mar") {
        Some((3, true))
    } else if eq_ignore_case(t, "march") {
        Some((3, false))
    } else if eq_ignore_case(t, "apr") {
        Some((4, true))
    } else if eq_ignore_case(t, "april") {
        Some((4, false))
    } else if eq_ignore_case(t, "may") {
        Some((5, true))
    } else if eq_ignore_case(t, "jun") {
        Some((6, true))
    } else if eq_ignore_case(t, "june") {
        Some((6, false))
    } else if eq_ignore_case(t, "jul") {
        Some((7, true))
    } else if eq_ignore_case(t, "july") {
        Some((7, false))
    } else if eq_ignore_case(t, "aug") {
        Some((8, true))
    } else if eq_ignore_case(t, "august") {
        Some((8, false))
    } else if eq_ignore_case(t, "sep") {
        Some((9, true))
    } else if eq_ignore_case(t, "september") {
        Some((9, false))
    } else if eq_ignore_case(t, "oct") {
        Some((10, true))
    } else if eq_ignore_case(t, "october") {
        Some((10, false))
    } else if eq_ignore_case(t, "nov") {
        Some((11, true))
    } else if eq_ignore_case(t, "november") {
        Some((11, false))
    } else if eq_ignore_case(t, "dec") {
        Some((12, true))
    } else if eq_ignore_case(t, "december") {
        Some((12, false))
    } else {
        None
    }
}

/// Weekday-token forms the exact stage accepts.
pub ghost enum WeekdayForm {
    Abbrev,
    Full,
    AbbrevComma,
}

/// Weekday named by a token of the exact stage's grammar: the three-letter
/// abbreviation, the full name, or the abbreviation with a trailing comma;
/// ASCII case-insensitive.
pub open spec fn weekday_of_token(t: Seq<char>) -> Option<(Weekday, WeekdayForm)> {
    if seq_eq_ci(t, "mon"@) {
        Some((Weekday::Mon, WeekdayForm::Abbrev))
    } else if seq_eq_ci(t, "monday"@) {
        Some((Weekday::Mon, WeekdayForm::Full))
    } else if seq_eq_ci(t, "mon,"@) {
        Some((Weekday::Mon, WeekdayForm::AbbrevComma))
    } else if seq_eq_ci(t, "tue"@) {
        Some((Weekday::Tue, WeekdayForm::Abbrev))
    } else if seq_eq_ci(t, "tuesday"@) {
        Some((Weekday::Tue, WeekdayForm::Full))
    } else if seq_eq_ci(t, "tue,"@) {
        Some((Weekday::Tue, WeekdayForm::AbbrevComma))
    } else if seq_eq_ci(t, "wed"@) {
        Some((Weekday::Wed, WeekdayForm::Abbrev))
    } else if seq_eq_ci(t, "wednesday"@) {
        Some((Weekday::Wed, WeekdayForm::Full))
    } else if seq_eq_ci(t, "wed,"@) {
        Some((Weekday::Wed, WeekdayForm::AbbrevComma))
    } else if seq_eq_ci(t, "thu"@) {
        Some((Weekday::Thu, WeekdayForm::Abbrev))
    } else if seq_eq_ci(t, "thursday"@) {
        Some((Weekday::Thu, WeekdayForm::Full))
    } else if seq_eq_ci(t, "thu,"@) {
        Some((Weekday::Thu, WeekdayForm::AbbrevComma))
    } else if seq_eq_ci(t, "fri"@) {
        Some((Weekday::Fri, WeekdayForm::Abbrev))
    } else if seq_eq_ci(t, "friday"@) {
        Some((Weekday::Fri, WeekdayForm::Full))
    } else if seq_eq_ci(t, "fri,"@) {
        Some((Weekday::Fri, WeekdayForm::AbbrevComma))
    } else if seq_eq_ci(t, "sat"@) {
        Some((Weekday::Sat, WeekdayForm::Abbrev))
    } else if seq_eq_ci(t, "saturday"@) {
        Some((Weekday::Sat, WeekdayForm::Full))
    } else if seq_eq_ci(t, "sat,"@) {
        Some((Weekday::Sat, WeekdayForm::AbbrevComma))
    } else if seq_eq_ci(t, "sun"@) {
        Some((Weekday::Sun, WeekdayForm::Abbrev))
    } else if seq_eq_ci(t, "sunday"@) {
        Some((Weekday::Sun, WeekdayForm::Full))
    } else if seq_eq_ci(t, "sun,"@) {
        Some((Weekday::Sun, WeekdayForm::AbbrevComma))
    } else {
        None
    }
}

fn weekday_from_token(t: &str) -> (r: Option<(Weekday, u8)>)
    ensures
        match r {
            Some(p) => weekday_of_token(t@) matches Some(q) && q.0 == p.0 && ((p.1 == 0 && q.1
                is Abbrev) || (p.1 == 1 && q.1 is Full) || (p.1 == 2 && q.1 is AbbrevComma)),
            None => weekday_of_token(t@) is None,
        },
{
    if eq_ignore_case(t, "mon") {
        Some((Weekday::Mon, 0))
    } else if eq_ignore_case(t, "monday") {
        Some((Weekday::Mon, 1))
    } else if eq_ignore_case(t, "mon,") {
        Some((Weekday::Mon, 2))
    } else if eq_ignore_case(t, "tue") {
        Some((Weekday::Tue, 0))
    } else if eq_ignore_case(t, "tuesday") {
        Some((Weekday::Tue, 1))
    } else if eq_ignore_case(t, "tue,") {
        Some((Weekday::Tue, 2))
    } else if eq_ignore_case(t, "wed") {
        Some((Weekday::Wed, 0))
    } else if eq_ignore_case(t, "wednesday") {
        Some((Weekday::Wed, 1))
    } else if eq_ignore_case(t, "wed,") {
        Some((Weekday::Wed, 2))
    } else if eq_ignore_case(t, "thu") {
        Some((Weekday::Thu, 0))
    } else if eq_ignore_case(t, "thursday") {
        Some((Weekday::Thu, 1))
    } else if eq_ignore_case(t, "thu,") {
        Some((Weekday::Thu, 2))
    } else if eq_ignore_case(t, "fri") {
        Some((Weekday::Fri, 0))
    } else if eq_ignore_case(t, "friday") {
        Some((Weekday::Fri, 1))
    } else if eq_ignore_case(t, "fri,") {
        Some((Weekday::Fri, 2))
    } else if eq_ignore_case(t, "sat") {
        Some((Weekday::Sat, 0))
    } else if eq_ignore_case(t, "saturday") {
        Some((Weekday::Sat, 1))
    } else if eq_ignore_case(t, "sat,") {
        Some((Weekday::Sat, 2))
    } else if eq_ignore_case(t, "sun") {
        Some((Weekday::Sun, 0))
    } else if eq_ignore_case(t, "sunday") {
        Some((Weekday::Sun, 1))
    } else if eq_ignore_case(t, "sun,") {
        Some((Weekday::Sun, 2))
    } else {
        None
    }
}

pub open spec fn is_digit(c: char) -> bool {
    48 <= c as int <= 57
}

pub open spec fn digit_val(c: char) -> int {
    c as int - 48
}

/// Day of month named by a token of one or two decimal digits.
pub open spec fn day_of_token(t: Seq<char>) -> Option<int> {
    if t.len() == 1 && is_digit(t[0]) {
        Some(digit_val(t[0]))
    } else if t.len() == 2 && is_digit(t[0]) && is_digit(t[1]) {
        Some(10 * digit_val(t[0]) + digit_val(t[1]))
    } else {
        None
    }
}

fn day_from_token(t: &str) -> (r: Option<u8>)
    ensures
        match r {
            Some(d) => day_of_token(t@) == Some(d as int) && d <= 99,
            None => day_of_token(t@) is None,
        },
{
    let n = t.unicode_len();
    if n == 1 {
        let c = t.get_char(0) as u32;
        if 48 <= c && c <= 57 {
            Some((c - 48) as u8)
        } else {
            None
        }
    } else if n == 2 {
        let c0 = t.get_char(0) as u32;
        let c1 = t.get_char(1) as u32;
        if 48 <= c0 && c0 <= 57 && 48 <= c1 && c1 <= 57 {
            Some((10 * (c0 - 48) + (c1 - 48)) as u8)
        } else {
            None
        }
    } else {
        None
    }
}

/// Hour and minute named by a time-of-day string: one or two digits of
/// hour, a colon, exactly two digits of minute; hour under 24, minute
/// under 60.
pub open spec fn time_of_str(t: Seq<char>) -> Option<(int, int)> {
    if t.len() == 4 && is_digit(t[0]) && t[1] == ':' && is_digit(t[2]) && is_digit(t[3]) {
        let h = digit_val(t[0]);
        let mi = 10 * digit_val(t[2]) + digit_val(t[3]);
        if mi <= 59 {
            Some((h, mi))
        } else {
            None
        }
    } else if t.len() == 5 && is_digit(t[0]) && is_digit(t[1]) && t[2] == ':' && is_digit(t[3])
        && is_digit(t[4]) {
        let h = 10 * digit_val(t[0]) + digit_val(t[1]);
        let mi = 10 * digit_val(t[3]) + digit_val(t[4]);
        if h <= 23 && mi <= 59 {
            Some((h, mi))
        } else {
            None
        }
    } else {
        None
    }
}

fn time_from_str(t: &str) -> (r: Option<(u8, u8)>)
    ensures
        match r {
            Some(p) => time_of_str(t@) == Some((p.0 as int, p.1 as int)) && p.0 < 24 && p.1
                < 60,
            None => time_of_str(t@) is None,
        },
{
    let n = t.unicode_len();
    if n == 4 {
        let c0 = t.get_char(0) as u32;
        let c1 = t.get_char(1);
        let c2 = t.get_char(2) as u32;
        let c3 = t.get_char(3) as u32;
        if 48 <= c0 && c0 <= 57 && c1 == ':' && 48 <= c2 && c2 <= 57 && 48 <= c3 && c3 <= 57 {
            let mi = 10 * (c2 - 48) + (c3 - 48);
            if mi <= 59 {
                Some(((c0 - 48) as u8, mi as u8))
            } else {
                None
            }
        } else {
            None
        }
    } else if n == 5 {
        let c0 = t.get_char(0) as u32;
        let c1 = t.get_char(1) as u32;
        let c2 = t.get_char(2);
        let c3 = t.get_char(3) as u32;
        let c4 = t.get_char(4) as u32;
        if 48 <= c0 && c0 <= 57 && 48 <= c1 && c1 <= 57 && c2 == ':' && 48 <= c3 && c3 <= 57 && 48
            <= c4 && c4 <= 57 {
            let h = 10 * (c0 - 48) + (c1 - 48);
            let mi = 10 * (c3 - 48) + (c4 - 48);
            if h <= 23 && mi <= 59 {
                Some((h as u8, mi as u8))
            } else {
                None
            }
        } else {
            None
        }
    } else {
        None
    }
}

/// The loose weekday check used when recording mismatches: the token
/// equals the full weekday name or starts with its three-letter
/// abbreviation, ASCII case-insensitively.
pub open spec fn weekday_token_matches(tok: Seq<char>, w: Weekday) -> bool {
    seq_eq_ci(tok, spec_weekday_full_name(w)) || ci_prefix(tok, spec_weekday_abbr3(w))
}

/// Three-letter abbreviation of a weekday, capitalized.
pub open spec fn spec_weekday_abbr3(w: Weekday) -> Seq<char> {
    match w {
        Weekday::Mon => "Mon"@,
        Weekday::Tue => "Tue"@,
        Weekday::Wed => "Wed"@,
        Weekday::Thu => "Thu"@,
        Weekday::Fri => "Fri"@,
        Weekday::Sat => "Sat"@,
        Weekday::Sun => "Sun"@,
    }
}

fn weekday_abbr3(w: Weekday) -> (r: &'static str)
    ensures
        r@ == spec_weekday_abbr3(w),
{
    match w {
        Weekday::Mon => "Mon",
        Weekday::Tue => "Tue",
        Weekday::Wed => "Wed",
        Weekday::Thu => "Thu",
        Weekday::Fri => "Fri",
        Weekday::Sat => "Sat",
        Weekday::Sun => "Sun",
    }
}

/// The weekday token's form and the month token's form can occur in one
/// pattern: a weekday with a trailing comma goes only with an abbreviated
/// month, while the plain forms combine freely.
pub open spec fn form_aligned(f: WeekdayForm, month_abbrev: bool) -> bool {
    match f {
        WeekdayForm::AbbrevComma => month_abbrev,
        _ => true,
    }
}

/// A resolved local time is accepted only inside the library's
/// representable range.
pub open spec fn checked_resolution(tz: Seq<char>, lm: int) -> Option<int> {
    match tz_local_single(tz, lm) {
        Some(u) => if MIN_EPOCH_MINUTES <= u <= MAX_EPOCH_MINUTES {
            Some(u)
        } else {
            None
        },
        None => None,
    }
}

/// The exact stage: three tokens naming an aligned weekday, month and day,
/// a parsable time, a valid date in year `year` whose computed weekday
/// equals the stated one, and an unambiguous timezone resolution.
/// The result is the UTC minute count.
pub open spec fn stage1_spec(tz: Seq<char>, date: Seq<char>, time: Seq<char>, year: int) -> Option<
    int,
> {
    let toks = tokens_of(date);
    if toks.len() == 3 {
        match (weekday_of_token(toks[0]), month_of_token(toks[1]), day_of_token(toks[2]),
        time_of_str(time)) {
            (Some(w), Some(mo), Some(d), Some(hm)) => {
                if form_aligned(w.1, mo.1) && valid_date(year, mo.0, d) && weekday_num(w.0)
                    == weekday_index_of_day(day_index(year, mo.0, d)) {
                    checked_resolution(tz, epoch_minutes_of(year, mo.0, d, hm.0, hm.1))
                } else {
                    None
                }
            },
            _ => None,
        }
    } else {
        None
    }
}

/// The weekday-tolerant stage: the leading token is ignored, the remaining
/// month and day tokens (abbreviated or full month) plus the time must
/// form a valid date in year `year` that the timezone resolves
/// unambiguously.
pub open spec fn stage2_spec(tz: Seq<char>, date: Seq<char>, time: Seq<char>, year: int) -> Option<
    int,
> {
    let toks = tokens_of(date);
    if toks.len() == 3 {
        match (month_of_token(toks[1]), day_of_token(toks[2]), time_of_str(time)) {
            (Some(mo), Some(d), Some(hm)) => {
                if valid_date(year, mo.0, d) {
                    checked_resolution(tz, epoch_minutes_of(year, mo.0, d, hm.0, hm.1))
                } else {
                    None
                }
            },
            _ => None,
        }
    } else {
        None
    }
}

/// Weekday of the date the weekday-tolerant stage parses (meaningful only
/// when that stage succeeds).
pub open spec fn stage2_weekday(date: Seq<char>, year: int) -> Weekday {
    let toks = tokens_of(date);
    crate::time::spec_weekday_of_num(
        weekday_index_of_day(
            day_index(year, month_of_token(toks[1]).unwrap().0, day_of_token(toks[2]).unwrap()),
        ),
    )
}

/// The mismatch record the weekday-tolerant stage attaches: present
/// exactly when the stated weekday token does not loosely match the
/// computed weekday.
pub open spec fn stage2_mismatch(date: Seq<char>, year: int) -> Option<WeekdayMismatchView> {
    let toks = tokens_of(date);
    let w = stage2_weekday(date, year);
    if weekday_token_matches(toks[0], w) {
        None
    } else {
        Some(
            WeekdayMismatchView {
                claimed_weekday: toks[0],
                actual_weekday: spec_weekday_full_name(w),
                date: toks[1] + " "@ + toks[2],
            },
        )
    }
}

/// The original text a parse records: date phrase, a space, time of day.
pub open spec fn source_text(date: Seq<char>, time: Seq<char>) -> Seq<char> {
    date + " "@ + time
}

/// The timezone note a parse records.
pub open spec fn tz_note_text(tz: Seq<char>) -> Seq<char> {
    "Parsed as "@ + tz + " timezone"@
}

/// Metadata a successful parse returns.
pub open spec fn meta_view(
    date: Seq<char>,
    time: Seq<char>,
    tz: Seq<char>,
    mm: Option<WeekdayMismatchView>,
    strat: StrategyView,
) -> ParseMetadataView {
    ParseMetadataView {
        original_source: source_text(date, time),
        weekday_mismatch: mm,
        timezone_assumptions: tz_note_text(tz),
        parsing_strategy: strat,
    }
}

/// Which stage a whole parse run ends in, with its UTC minute count.
pub ghost enum ParseOutcome {
    Exact(int),
    Tolerant(int),
    YearShift(int, int),
    Failed,
}

/// The staged algorithm: exact match at the current year, then weekday
/// tolerance at the current year, then exact match at the previous and
/// next years, else failure.
pub open spec fn parse_plan(tz: Seq<char>, date: Seq<char>, time: Seq<char>, y: int) -> ParseOutcome {
    match stage1_spec(tz, date, time, y) {
        Some(u) => ParseOutcome::Exact(u),
        None => match stage2_spec(tz, date, time, y) {
            Some(u) => ParseOutcome::Tolerant(u),
            None => match stage1_spec(tz, date, time, y - 1) {
                Some(u) => ParseOutcome::YearShift(u, y - 1),
                None => match stage1_spec(tz, date, time, y + 1) {
                    Some(u) => ParseOutcome::YearShift(u, y + 1),
                    None => ParseOutcome::Failed,
                },
            },
        },
    }
}

/// The message reported when every stage fails.
pub open spec fn parse_fail_text(date: Seq<char>, time: Seq<char>) -> Seq<char> {
    "Could not parse datetime: "@ + date + " "@ + time
        + " (tried exact, weekday-tolerant, and year variants)"@
}

/// Turns date phrases and times of day into UTC instants, tolerating the
/// defects its stages know how to absorb.
pub struct DateTimeParser {
    pub default_timezone: String,
    pub fallback_timezone: String,
    pub current_time: Option<Instant>,
}

impl DateTimeParser {
    /// Any injected current time is a well-formed instant.
    pub open spec fn wf(self) -> bool {
        self.current_time matches Some(t) ==> t.wf()
    }

    /// A parser for the given source/display timezone, with UTC as the
    /// fallback timezone and no injected current time.
    pub fn new(default_tz: String) -> (r: Self)
        ensures
            r.default_timezone@ == default_tz@,
            r.fallback_timezone@ == "UTC"@,
            r.current_time is None,
            r.wf(),
    {
        DateTimeParser {
            default_timezone: default_tz,
            fallback_timezone: "UTC".to_owned(),
            current_time: None,
        }
    }

    pub fn with_fallback_timezone(self, fallback_tz: String) -> (r: Self)
        ensures
            r.default_timezone@ == self.default_timezone@,
            r.fallback_timezone@ == fallback_tz@,
            r.current_time == self.current_time,
            self.wf() ==> r.wf(),
    {
        DateTimeParser { fallback_timezone: fallback_tz, ..self }
    }

    /// Inject the current time the parser anchors assumed years to.
    pub fn with_current_time(self, current_time: Instant) -> (r: Self)
        requires
            current_time.wf(),
        ensures
            r.default_timezone@ == self.default_timezone@,
            r.fallback_timezone@ == self.fallback_timezone@,
            r.current_time == Some(current_time),
            r.wf(),
    {
        DateTimeParser { current_time: Some(current_time), ..self }
    }

    /// The loose weekday check: the token equals the full weekday name or
    /// starts with its three-letter abbreviation, ASCII
    /// case-insensitively.
    pub fn weekday_matches(&self, claimed: &str, actual: Weekday) -> (r: bool)
        ensures
            r == weekday_token_matches(claimed@, actual),
    {
        eq_ignore_case(claimed, weekday_full_name(actual)) || starts_with_ci(
            claimed,
            weekday_abbr3(actual),
        )
    }

    fn build_source(date_str: &str, time_str: &str) -> (r: String)
        ensures
            r@ == source_text(date_str@, time_str@),
    {
        let mut s = date_str.to_owned();
        s.append(" ");
        s.append(time_str);
        s
    }

    fn build_tz_note(&self) -> (r: String)
        ensures
            r@ == tz_note_text(self.default_timezone@),
    {
        let mut s = "Parsed as ".to_owned();
        s.append(self.default_timezone.as_str());
        s.append(" timezone");
        s
    }

    fn try_exact_parsing(&self, date_str: &str, time_str: &str, year: i64) -> (r: Option<
        (Instant, ParseMetadata),
    >)
        requires
            1 <= year <= 9999,
        ensures
            r is Some <==> stage1_spec(self.default_timezone@, date_str@, time_str@, year as int)
                is Some,
            r matches Some(p) ==> p.0.wf() && stage1_spec(
                self.default_timezone@,
                date_str@,
                time_str@,
                year as int,
            ) == Some(p.0.minutes as int) && p.1@ == meta_view(
                date_str@,
                time_str@,
                self.default_timezone@,
                None,
                StrategyView::ExactMatch,
            ),
    {
        let toks = split_tokens(date_str);
        if toks.len() != 3 {
            return None;
        }
        proof {
            assert(toks.deep_view()[0] == toks@[0]@);
            assert(toks.deep_view()[1] == toks@[1]@);
            assert(toks.deep_view()[2] == toks@[2]@);
        }
        let wd = match weekday_from_token(toks[0].as_str()) {
            Some(w) => w,
            None => {
                return None;
            },
        };
        let mo = match month_from_token(toks[1].as_str()) {
            Some(m) => m,
            None => {
                return None;
            },
        };
        let d = match day_from_token(toks[2].as_str()) {
            Some(d) => d,
            None => {
                return None;
            },
        };
        let hm = match time_from_str(time_str) {
            Some(t) => t,
            None => {
                return None;
            },
        };
        if wd.1 == 2 && !mo.1 {
            // a comma-suffixed weekday pairs only with an abbreviated month
            return None;
        }
        if d < 1 || (d as u64) > days_in_month_x(year as u64, mo.0 as u64) {
            return None;
        }
        let di = crate::time::day_index_x(year, mo.0, d);
        if crate::time::weekday_of_num(di % 7) != wd.0 {
            return None;
        }
        let lm = crate::time::epoch_minutes_x(year, mo.0, d, hm.0, hm.1);
        match resolve_local_minutes(self.default_timezone.as_str(), lm) {
            Some(u) => {
                if MIN_EPOCH_MINUTES <= u && u <= MAX_EPOCH_MINUTES {
                    let inst = Instant::from_epoch_minutes(u);
                    let meta = ParseMetadata {
                        original_source: Self::build_source(date_str, time_str),
                        weekday_mismatch: None,
                        timezone_assumptions: self.build_tz_note(),
                        parsing_strategy: ParsingStrategy::ExactMatch,
                    };
                    Some((inst, meta))
                } else {
                    None
                }
            },
            None => None,
        }
    }

    fn try_weekday_tolerant_parsing(&self, date_str: &str, time_str: &str, year: i64) -> (r: Option<
        (Instant, ParseMetadata),
    >)
        requires
            1 <= year <= 9999,
        ensures
            r is Some <==> stage2_spec(self.default_timezone@, date_str@, time_str@, year as int)
                is Some,
            r matches Some(p) ==> p.0.wf() && stage2_spec(
                self.default_timezone@,
                date_str@,
                time_str@,
                year as int,
            ) == Some(p.0.minutes as int) && p.1@ == meta_view(
                date_str@,
                time_str@,
                self.default_timezone@,
                stage2_mismatch(date_str@, year as int),
                StrategyView::WeekdayTolerant,
            ),
    {
        let toks = split_tokens(date_str);
        if toks.len() != 3 {
            return None;
        }
        proof {
            assert(toks.deep_view()[0] == toks@[0]@);
            assert(toks.deep_view()[1] == toks@[1]@);
            assert(toks.deep_view()[2] == toks@[2]@);
        }
        let mo = match month_from_token(toks[1].as_str()) {
            Some(m) => m,
            None => {
                return None;
            },
        };
        let d = match day_from_token(toks[2].as_str()) {
            Some(d) => d,
            None => {
                return None;
            },
        };
        let hm = match time_from_str(time_str) {
            Some(t) => t,
            None => {
                return None;
            },
        };
        if d < 1 || (d as u64) > days_in_month_x(year as u64, mo.0 as u64) {
            return None;
        }
        let di = crate::time::day_index_x(year, mo.0, d);
        let actual = crate::time::weekday_of_num(di % 7);
        let lm = crate::time::epoch_minutes_x(year, mo.0, d, hm.0, hm.1);
        match resolve_local_minutes(self.default_timezone.as_str(), lm) {
            Some(u) => {
                if MIN_EPOCH_MINUTES <= u && u <= MAX_EPOCH_MINUTES {
                    let inst = Instant::from_epoch_minutes(u);
                    let weekday_mismatch = if !self.weekday_matches(toks[0].as_str(), actual) {
                        let mut date_without = toks[1].clone();
                        date_without.append(" ");
                        date_without.append(toks[2].as_str());
                        Some(
                            WeekdayMismatch {
                                claimed_weekday: toks[0].clone(),
                                actual_weekday: weekday_full_name(actual).to_owned(),
                                date: date_without,
                            },
                        )
                    } else {
                        None
                    };
                    let meta = ParseMetadata {
                        original_source: Self::build_source(date_str, time_str),
                        weekday_mismatch,
                        timezone_assumptions: self.build_tz_note(),
                        parsing_strategy: ParsingStrategy::WeekdayTolerant,
                    };
                    Some((inst, meta))
                } else {
                    None
                }
            },
            None => None,
        }
    }

    /// Parse a date phrase and time of day against the injected current
    /// time, trying exact, weekday-tolerant and year-shifted strategies in
    /// order; the metadata records which one succeeded.
    pub fn parse_with_weekday_tolerance(&self, date_str: &str, time_str: &str) -> (r: Result<
        (Instant, ParseMetadata),
        ScrapeError,
    >)
        requires
            self.wf(),
            self.current_time is Some,
        ensures
            ({
                let y = self.current_time.unwrap().year as int;
                let tz = self.default_timezone@;
                match parse_plan(tz, date_str@, time_str@, y) {
                    ParseOutcome::Exact(u) => r matches Ok(p) && p.0.wf() && p.0.minutes == u
                        && p.1@ == meta_view(
                        date_str@,
                        time_str@,
                        tz,
                        None,
                        StrategyView::ExactMatch,
                    ),
                    ParseOutcome::Tolerant(u) => r matches Ok(p) && p.0.wf() && p.0.minutes == u
                        && p.1@ == meta_view(
                        date_str@,
                        time_str@,
                        tz,
                        stage2_mismatch(date_str@, y),
                        StrategyView::WeekdayTolerant,
                    ),
                    ParseOutcome::YearShift(u, yy) => r matches Ok(p) && p.0.wf() && p.0.minutes
                        == u && p.1@ == meta_view(
                        date_str@,
                        time_str@,
                        tz,
                        None,
                        StrategyView::YearAssumption(yy),
                    ),
                    ParseOutcome::Failed => r matches Err(e) && e@
                        == crate::ScrapeErrorView::InvalidDateTime(
                        parse_fail_text(date_str@, time_str@),
                    ),
                }
            }),
    {
        let now = self.current_time.unwrap();
        let year = now.year;
        if let Some(p) = self.try_exact_parsing(date_str, time_str, year) {
            return Ok(p);
        }
        if let Some(p) = self.try_weekday_tolerant_parsing(date_str, time_str, year) {
            return Ok(p);
        }
        if let Some((inst, mut meta)) = self.try_exact_parsing(date_str, time_str, year - 1) {
            meta.parsing_strategy = ParsingStrategy::YearAssumption(year - 1);
            return Ok((inst, meta));
        }
        if let Some((inst, mut meta)) = self.try_exact_parsing(date_str, time_str, year + 1) {
            meta.parsing_strategy = ParsingStrategy::YearAssumption(year + 1);
            return Ok((inst, meta));
        }
        let mut msg = "Could not parse datetime: ".to_owned();
        msg.append(date_str);
        msg.append(" ");
        msg.append(time_str);
        msg.append(" (tried exact, weekday-tolerant, and year variants)");
        Err(ScrapeError::InvalidDateTime(msg))
    }
}

/// The bracketed note `to_timezone_info` appends for a parsing strategy.
pub open spec fn strategy_note_text(s: StrategyView) -> Seq<char> {
    match s {
        StrategyView::ExactMatch => Seq::empty(),
        StrategyView::WeekdayTolerant => " [weekday-tolerant parsing]"@,
        StrategyView::YearAssumption(y) => " [assumed year "@ + dec_int(y) + "]"@,
        StrategyView::TimezoneFallback(tz) => " [fallback timezone: "@ + tz + "]"@,
    }
}

/// The parenthesized note `to_timezone_info` inserts for a recorded
/// weekday mismatch.
pub open spec fn mismatch_note_text(mm: Option<WeekdayMismatchView>) -> Seq<char> {
    match mm {
        Some(m) => " (claimed "@ + m.claimed_weekday + ", actually "@ + m.actual_weekday + ")"@,
        None => Seq::empty(),
    }
}

/// The whole summary line `to_timezone_info` returns.
pub open spec fn timezone_info_text(m: ParseMetadataView) -> Seq<char> {
    m.timezone_assumptions + " - "@ + m.original_source + mismatch_note_text(m.weekday_mismatch)
        + strategy_note_text(m.parsing_strategy)
}

/// Display text of a parsing strategy.
pub open spec fn strategy_display_text(s: StrategyView) -> Seq<char> {
    match s {
        StrategyView::ExactMatch => "Exact Match"@,
        StrategyView::WeekdayTolerant => "Weekday Tolerant"@,
        StrategyView::YearAssumption(y) => "Year Assumption ("@ + dec_int(y) + ")"@,
        StrategyView::TimezoneFallback(tz) => "Timezone Fallback ("@ + tz + ")"@,
    }
}

impl ParsingStrategy {
    /// Human-readable name of the strategy.
    pub fn to_display_string(&self) -> (r: String)
        ensures
            r@ == strategy_display_text(self@),
    {
        match self {
            ParsingStrategy::ExactMatch => "Exact Match".to_owned(),
            ParsingStrategy::WeekdayTolerant => "Weekday Tolerant".to_owned(),
            ParsingStrategy::YearAssumption(y) => {
                let mut s = "Year Assumption (".to_owned();
                s.append(i64_to_string(*y).as_str());
                s.append(")");
                s
            },
            ParsingStrategy::TimezoneFallback(tz) => {
                let mut s = "Timezone Fallback (".to_owned();
                s.append(tz.as_str());
                s.append(")");
                s
            },
        }
    }
}

impl ParseMetadata {
    /// One line naming the timezone assumption, the original text, any
    /// weekday mismatch, and the non-exact strategy used.
    pub fn to_timezone_info(&self) -> (r: String)
        ensures
            r@ == timezone_info_text(self@),
    {
        let mut info = self.timezone_assumptions.clone();
        info.append(" - ");
        info.append(self.original_source.as_str());
        match &self.weekday_mismatch {
            Some(m) => {
                info.append(" (claimed ");
                info.append(m.claimed_weekday.as_str());
                info.append(", actually ");
                info.append(m.actual_weekday.as_str());
                info.append(")");
            },
            None => {},
        }
        match &self.parsing_strategy {
            ParsingStrategy::ExactMatch => {},
            ParsingStrategy::WeekdayTolerant => {
                info.append(" [weekday-tolerant parsing]");
            },
            ParsingStrategy::YearAssumption(y) => {
                info.append(" [assumed year ");
                info.append(i64_to_string(*y).as_str());
                info.append("]");
            },
            ParsingStrategy::TimezoneFallback(tz) => {
                info.append(" [fallback timezone: ");
                info.append(tz.as_str());
                info.append("]");
            },
        }
        proof {
            assert(info@ =~= timezone_info_text(self@));
        }
        info
    }

    /// Whether this parse had to guess: a weekday mismatch was recorded or
    /// a non-exact strategy was used.
    pub fn has_data_quality_issues(&self) -> (r: bool)
        ensures
            r == (self@.weekday_mismatch is Some || !(self@.parsing_strategy
                is ExactMatch)),
    {
        self.weekday_mismatch.is_some() || !(matches!(
            self.parsing_strategy,
            ParsingStrategy::ExactMatch
        ))
    }
}

/// Parsing is deterministic: two parsers configured alike plan the same
/// outcome for the same date phrase and time of day, and the parse result
/// is pinned to that plan by `parse_with_weekday_tolerance`'s contract.
pub proof fn lemma_parse_deterministic(
    p1: DateTimeParser,
    p2: DateTimeParser,
    date: Seq<char>,
    time: Seq<char>,
)
    requires
        p1.default_timezone@ == p2.default_timezone@,
        p1.current_time == p2.current_time,
        p1.current_time is Some,
    ensures
        parse_plan(p1.default_timezone@, date, time, p1.current_time.unwrap().year as int)
            == parse_plan(p2.default_timezone@, date, time, p2.current_time.unwrap().year as int),
{
}

/// A token the exact stage's grammar reads as weekday `w` also satisfies
/// the loose weekday matcher for `w`.
proof fn lemma_weekday_token_forms(t: Seq<char>, w: Weekday, f: WeekdayForm)
    requires
        weekday_of_token(t) == Some((w, f)),
    ensures
        weekday_token_matches(t, w),
{
    reveal_strlit("mon");
    reveal_strlit("monday");
    reveal_strlit("mon,");
    reveal_strlit("tue");
    reveal_strlit("tuesday");
    reveal_strlit("tue,");
    reveal_strlit("wed");
    reveal_strlit("wednesday");
    reveal_strlit("wed,");
    reveal_strlit("thu");
    reveal_strlit("thursday");
    reveal_strlit("thu,");
    reveal_strlit("fri");
    reveal_strlit("friday");
    reveal_strlit("fri,");
    reveal_strlit("sat");
    reveal_strlit("saturday");
    reveal_strlit("sat,");
    reveal_strlit("sun");
    reveal_strlit("sunday");
    reveal_strlit("sun,");
    reveal_strlit("Mon");
    reveal_strlit("Monday");
    reveal_strlit("Tue");
    reveal_strlit("Tuesday");
    reveal_strlit("Wed");
    reveal_strlit("Wednesday");
    reveal_strlit("Thu");
    reveal_strlit("Thursday");
    reveal_strlit("Fri");
    reveal_strlit("Friday");
    reveal_strlit("Sat");
    reveal_strlit("Saturday");
    reveal_strlit("Sun");
    reveal_strlit("Sunday");
}

/// Day numbers of valid dates are non-negative, so their weekday index is
/// a proper residue.
proof fn lemma_day_index_nonneg(y: int, m: int, d: int)
    requires
        valid_date(y, m, d),
    ensures
        day_index(y, m, d) >= 0,
        0 <= weekday_index_of_day(day_index(y, m, d)) < 7,
{
    crate::time::lemma_day_index_bounds(y, m, d);
    crate::time::lemma_days_before_year_mono(1, y);
    assert(crate::time::days_before_year(1) == 0);
    vstd::arithmetic::div_mod::lemma_mod_bound(day_index(y, m, d), 7);
}

/// When the weekday-tolerant stage can parse a phrase and its stated
/// weekday token names, under the exact grammar and aligned with the
/// month token's form, the very weekday of the parsed date, the whole
/// parse ends in the exact stage: strategy `ExactMatch`, no mismatch,
/// same instant.
pub proof fn lemma_weekday_agreement_is_exact(
    tz: Seq<char>,
    date: Seq<char>,
    time: Seq<char>,
    y: int,
)
    requires
        stage2_spec(tz, date, time, y) is Some,
        weekday_of_token(tokens_of(date)[0]) matches Some(w) && weekday_num(w.0)
            == weekday_index_of_day(
            day_index(
                y,
                month_of_token(tokens_of(date)[1]).unwrap().0,
                day_of_token(tokens_of(date)[2]).unwrap(),
            ),
        ) && form_aligned(w.1, month_of_token(tokens_of(date)[1]).unwrap().1),
    ensures
        parse_plan(tz, date, time, y) == ParseOutcome::Exact(
            stage2_spec(tz, date, time, y).unwrap(),
        ),
{
}

/// When the weekday-tolerant stage can parse a phrase and its stated
/// weekday token disagrees (even loosely) with the weekday of the parsed
/// date, the whole parse ends in the tolerant stage, and the recorded
/// mismatch holds the stated token and the computed weekday's full name.
pub proof fn lemma_weekday_disagreement_is_tolerant(
    tz: Seq<char>,
    date: Seq<char>,
    time: Seq<char>,
    y: int,
)
    requires
        stage2_spec(tz, date, time, y) is Some,
        !weekday_token_matches(tokens_of(date)[0], stage2_weekday(date, y)),
    ensures
        parse_plan(tz, date, time, y) == ParseOutcome::Tolerant(
            stage2_spec(tz, date, time, y).unwrap(),
        ),
        stage2_mismatch(date, y) == Some(
            WeekdayMismatchView {
                claimed_weekday: tokens_of(date)[0],
                actual_weekday: spec_weekday_full_name(stage2_weekday(date, y)),
                date: tokens_of(date)[1] + " "@ + tokens_of(date)[2],
            },
        ),
{
    let toks = tokens_of(date);
    let mo = month_of_token(toks[1]).unwrap();
    let d = day_of_token(toks[2]).unwrap();
    if stage1_spec(tz, date, time, y) is Some {
        let w = weekday_of_token(toks[0]).unwrap();
        lemma_day_index_nonneg(y, mo.0, d);
        crate::time::lemma_weekday_num_roundtrip(w.0);
        lemma_weekday_token_forms(toks[0], w.0, w.1);
        assert(false);
    }
}

impl PartialEq for ParsingStrategy {

    fn eq(&self, other: &Self) -> (r: bool) {
        match (self, other) {
            (ParsingStrategy::ExactMatch, ParsingStrategy::ExactMatch) => true,
            (ParsingStrategy::WeekdayTolerant, ParsingStrategy::WeekdayTolerant) => true,
            (ParsingStrategy::YearAssumption(a), ParsingStrategy::YearAssumption(b)) => *a == *b,
            (ParsingStrategy::TimezoneFallback(a), ParsingStrategy::TimezoneFallback(b)) => *a == *b,
            _ => false,
        }
    }
}

impl vstd::std_specs::cmp::PartialEqSpecImpl for ParsingStrategy {
    open spec fn obeys_eq_spec() -> bool {
        true
    }

    open spec fn eq_spec(&self, other: &Self) -> bool {
        self@ == other@
    }
}

impl PartialEq for WeekdayMismatch {
    fn eq(&self, other: &Self) -> (r: bool) {
        self.claimed_weekday == other.claimed_weekday && self.actual_weekday
            == other.actual_weekday && self.date == other.date
    }
}

impl vstd::std_specs::cmp::PartialEqSpecImpl for WeekdayMismatch {
    open spec fn obeys_eq_spec() -> bool {
        true
    }

    open spec fn eq_spec(&self, other: &Self) -> bool {
        self@ == other@
    }
}

impl PartialEq for ParseMetadata {
    fn eq(&self, other: &Self) -> (r: bool) {
        let mismatch_eq = match (&self.weekday_mismatch, &other.weekday_mismatch) {
            (None, None) => true,
            (Some(a), Some(b)) => *a == *b,
            _ => false,
        };
        self.original_source == other.original_source && mismatch_eq && self.timezone_assumptions
            == other.timezone_assumptions && self.parsing_strategy == other.parsing_strategy
    }
}

impl vstd::std_specs::cmp::PartialEqSpecImpl for ParseMetadata {
    open spec fn obeys_eq_spec() -> bool {
        true
    }

    open spec fn eq_spec(&self, other: &Self) -> bool {
        self@ == other@
    }
}

} // verus!
