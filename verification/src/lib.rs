//! Fixture ingestion core: a graceful-degradation date/time parser and a
//! tiered fixture validator, both anchored to a minute-precision UTC timeline.

#![allow(unused_imports)]
use vstd::prelude::*;
use vstd::string::StringExecFns;

pub mod parsing;
pub mod text;
pub mod time;
pub mod tz;
pub mod validation;

use crate::parsing::ParseMetadata;
use crate::parsing::ParseMetadataView;
use crate::time::Instant;
use crate::time::LocalTime;
use crate::time::local_time_of_minutes;
use crate::time::lemma_wf_minutes_range;
use crate::tz::offset_minutes_at;
use crate::tz::tz_offset;

verus! {

/// One scraped sports fixture, with its instant in UTC and the metadata
/// recorded while parsing its date text.
#[derive(Debug, Clone)]
pub struct Fixture {
    pub team: String,
    pub opponent: String,
    pub datetime: Instant,
    pub venue: String,
    pub competition: String,
    pub parse_metadata: ParseMetadata,
}

pub ghost struct FixtureView {
    pub team: Seq<char>,
    pub opponent: Seq<char>,
    pub datetime: Instant,
    pub venue: Seq<char>,
    pub competition: Seq<char>,
    pub parse_metadata: ParseMetadataView,
}

impl View for Fixture {
    type V = FixtureView;

    open spec fn view(&self) -> FixtureView {
        FixtureView {
            team: self.team@,
            opponent: self.opponent@,
            datetime: self.datetime,
            venue: self.venue@,
            competition: self.competition@,
            parse_metadata: self.parse_metadata@,
        }
    }
}

impl Fixture {
    /// The fixture's instant is well-formed.
    pub open spec fn wf(self) -> bool {
        self.datetime.wf()
    }

    pub fn new(
        team: String,
        opponent: String,
        datetime: Instant,
        venue: String,
        competition: String,
        parse_metadata: ParseMetadata,
    ) -> (r: Fixture)
        ensures
            r.team@ == team@,
            r.opponent@ == opponent@,
            r.datetime == datetime,
            r.venue@ == venue@,
            r.competition@ == competition@,
            r.parse_metadata@ == parse_metadata@,
    {
        Fixture { team, opponent, datetime, venue, competition, parse_metadata }
    }

    /// The fixture's instant shifted into the Europe/London display
    /// timezone: the timezone database's offset is applied when it is
    /// available, and the instant is shown unshifted otherwise.
    pub fn to_london_time(&self) -> (r: LocalTime)
        requires
            self.wf(),
        ensures
            london_local_matches(self.datetime, r),
    {
        london_local_time(&self.datetime)
    }
}

/// Minutes since the Unix epoch of `i` shifted into Europe/London local
/// time; without a database offset the instant stands unshifted.
pub open spec fn london_minutes_of(i: Instant) -> int {
    match tz_offset("Europe/London"@, i.minutes as int) {
        Some(o) => i.minutes + o,
        None => i.minutes as int,
    }
}

/// `r` is the civil rendering of `i` in Europe/London local time.
pub open spec fn london_local_matches(i: Instant, r: LocalTime) -> bool {
    ({
        let c = crate::time::civil_of_minutes_spec(london_minutes_of(i));
        r.year == c.0 && r.month == c.1 && r.day == c.2 && r.hour == c.3 && r.minute == c.4
    }) && crate::time::represents_minutes(
        r.year as int,
        r.month as int,
        r.day as int,
        r.hour as int,
        r.minute as int,
        london_minutes_of(i),
    ) && crate::time::weekday_num(r.weekday) == crate::time::weekday_of_minutes(
        london_minutes_of(i),
    )
}

/// Civil rendering of an instant in Europe/London local time.
pub fn london_local_time(i: &Instant) -> (r: LocalTime)
    requires
        i.wf(),
    ensures
        london_local_matches(*i, r),
{
    proof {
        lemma_wf_minutes_range(*i);
    }
    match offset_minutes_at("Europe/London", i.minutes) {
        Some(o) => local_time_of_minutes(i.minutes + o as i64),
        None => local_time_of_minutes(i.minutes),
    }
}

impl PartialEq for Fixture {
    fn eq(&self, other: &Self) -> (r: bool) {
        self.team == other.team && self.opponent == other.opponent && self.datetime
            == other.datetime && self.venue == other.venue && self.competition
            == other.competition && self.parse_metadata == other.parse_metadata
    }
}

impl vstd::std_specs::cmp::PartialEqSpecImpl for Fixture {
    open spec fn obeys_eq_spec() -> bool {
        true
    }

    open spec fn eq_spec(&self, other: &Self) -> bool {
        self@ == other@
    }
}

/// What went wrong while scraping or parsing.
#[derive(Debug, Clone)]
pub enum ScrapeError {
    /// Network-level failure while fetching a page.
    Network(String),
    /// The page's structure could not be understood.
    Parse(String),
    /// A date/time text could not be parsed by any strategy.
    InvalidDateTime(String),
    /// An expected element was missing from the page.
    MissingElement(String),
}

pub ghost enum ScrapeErrorView {
    Network(Seq<char>),
    Parse(Seq<char>),
    InvalidDateTime(Seq<char>),
    MissingElement(Seq<char>),
}

impl View for ScrapeError {
    type V = ScrapeErrorView;

    open spec fn view(&self) -> ScrapeErrorView {
        match self {
            ScrapeError::Network(m) => ScrapeErrorView::Network(m@),
            ScrapeError::Parse(m) => ScrapeErrorView::Parse(m@),
            ScrapeError::InvalidDateTime(m) => ScrapeErrorView::InvalidDateTime(m@),
            ScrapeError::MissingElement(m) => ScrapeErrorView::MissingElement(m@),
        }
    }
}

/// The text of a [`ScrapeError`], as shown to a user.
pub open spec fn scrape_error_text(e: ScrapeErrorView) -> Seq<char> {
    match e {
        ScrapeErrorView::Network(m) => "Network error: "@ + m,
        ScrapeErrorView::Parse(m) => "Parse error: "@ + m,
        ScrapeErrorView::InvalidDateTime(m) => "Invalid datetime: "@ + m,
        ScrapeErrorView::MissingElement(m) => "Missing element: "@ + m,
    }
}

impl ScrapeError {
    /// Human-readable description, naming the failure mode and its detail.
    pub fn to_display_string(&self) -> (r: String)
        ensures
            r@ == scrape_error_text(self@),
    {
        match self {
            ScrapeError::Network(m) => {
                let mut s = "Network error: ".to_owned();
                s.append(m.as_str());
                s
            },
            ScrapeError::Parse(m) => {
                let mut s = "Parse error: ".to_owned();
                s.append(m.as_str());
                s
            },
            ScrapeError::InvalidDateTime(m) => {
                let mut s = "Invalid datetime: ".to_owned();
                s.append(m.as_str());
                s
            },
            ScrapeError::MissingElement(m) => {
                let mut s = "Missing element: ".to_owned();
                s.append(m.as_str());
                s
            },
        }
    }
}

} // verus!
