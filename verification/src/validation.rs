//! Tiered quality classification of fixtures.
//!
//! A fixture is classified once, against an explicit current time, into
//! one of four tiers: `Valid`, `ValidWithWarnings`, `Invalid`, or
//! `Historical`. A fixture in the past is `Historical` outright; otherwise
//! independent rules each contribute at most one issue, and the worst
//! severity collected decides the tier.

use vstd::prelude::*;
use vstd::string::StrSliceExecFns;
use vstd::string::StringExecFns;
use crate::text::contains_ci;
use crate::text::dec_nat;
use crate::text::has_substr;
use crate::text::has_substr_ci;
use crate::text::pad2;
use crate::text::pad2_string;
use crate::text::pad4;
use crate::text::pad4_string;
use crate::text::str_contains;
use crate::text::u64_to_string;
use crate::time::civil_of_minutes_spec;
use crate::time::spec_weekday_full_name;
use crate::time::spec_weekday_of_num;
use crate::time::spec_month_abbr_display;
use crate::time::month_abbr_display;
use crate::time::weekday_full_name;
use crate::time::weekday_num;
use crate::time::weekday_of_minutes;
use crate::time::lemma_weekday_num_roundtrip;
use crate::time::Instant;
use crate::time::LocalTime;
use crate::time::Weekday;
use crate::london_local_time;
use crate::london_minutes_of;
use crate::Fixture;
use crate::FixtureView;

verus! {

/// How bad one detected issue is.
#[derive(Debug, Clone, Copy, PartialEq, Eq, Structural)]
pub enum IssueSeverity {
    Warning,
    Error,
    Critical,
}

/// What kind of defect an issue reports.
#[derive(Debug, Clone, Copy, PartialEq, Eq, Structural)]
pub enum IssueCategory {
    DateWeekdayMismatch,
    HistoricalFixture,
    SuspiciousTime,
    MissingData,
    DataInconsistency,
}

/// One detected data-quality issue.
#[derive(Debug, Clone)]
pub struct ValidationIssue {
    pub severity: IssueSeverity,
    pub category: IssueCategory,
    pub message: String,
    pub suggested_fix: Option<String>,
}

pub ghost struct IssueView {
    pub severity: IssueSeverity,
    pub category: IssueCategory,
    pub message: Seq<char>,
    pub suggested_fix: Option<Seq<char>>,
}

impl View for ValidationIssue {
    type V = IssueView;

    open spec fn view(&self) -> IssueView {
        IssueView {
            severity: self.severity,
            category: self.category,
            message: self.message@,
            suggested_fix: match &self.suggested_fix {
                Some(s) => Some(s@),
                None => None,
            },
        }
    }
}

impl DeepView for ValidationIssue {
    type V = IssueView;

    open spec fn deep_view(&self) -> IssueView {
        self.view()
    }
}

/// The quality tier a fixture was classified into.
#[derive(Debug, Clone)]
pub enum FixtureValidation {
    Valid,
    ValidWithWarnings(Vec<ValidationIssue>),
    Invalid(Vec<ValidationIssue>),
    Historical(Instant),
}

/// Weekday named loosely by a recorded claimed-weekday text, by
/// case-insensitive substring search, trying Sunday first as the original
/// rule order does.
pub open spec fn expected_weekday_of(claimed: Seq<char>) -> Option<Weekday> {
    if has_substr_ci(claimed, "sun"@) {
        Some(Weekday::Sun)
    } else if has_substr_ci(claimed, "mon"@) {
        Some(Weekday::Mon)
    } else if has_substr_ci(claimed, "tue"@) {
        Some(Weekday::Tue)
    } else if has_substr_ci(claimed, "wed"@) {
        Some(Weekday::Wed)
    } else if has_substr_ci(claimed, "thu"@) {
        Some(Weekday::Thu)
    } else if has_substr_ci(claimed, "fri"@) {
        Some(Weekday::Fri)
    } else if has_substr_ci(claimed, "sat"@) {
        Some(Weekday::Sat)
    } else {
        None
    }
}

/// The message of the out-of-range-date issue.
pub open spec fn range_message(f: FixtureView, now: Instant) -> Seq<char> {
    "Fixture date "@ + pad4(f.datetime.year as int) + "-"@ + pad2(f.datetime.month as int) + "-"@
        + pad2(f.datetime.day as int) + " is outside reasonable range ("@ + dec_nat(
        now.year as int,
    ) + "-"@ + dec_nat(now.year + 2) + "). Fixtures only planned "@ + dec_nat(2) + " years ahead."@
}

/// The message of the weekday-inconsistency issue, naming the fixture's
/// London-local date and both weekdays.
pub open spec fn consistency_message(i: Instant, actual: Weekday, expected: Weekday) -> Seq<char> {
    let c = civil_of_minutes_spec(london_minutes_of(i));
    "Date "@ + spec_month_abbr_display(c.1) + " "@ + pad2(c.2) + ", "@ + dec_nat(c.0) + " is a "@
        + spec_weekday_full_name(actual) + ", but source indicated "@ + spec_weekday_full_name(
        expected,
    ) + ". Source may have incorrect weekday."@
}

/// The message of the suspicious-time issue, naming the London-local
/// hour and minute.
pub open spec fn time_message(i: Instant) -> Seq<char> {
    let c = civil_of_minutes_spec(london_minutes_of(i));
    "Unusual fixture time: "@ + dec_nat(c.3) + ":"@ + pad2(c.4) + " London time"@
}

/// The out-of-range-date rule: the fixture's UTC year must lie between
/// the current year and two years later, else one critical issue.
pub open spec fn range_issue(f: FixtureView, now: Instant) -> Option<IssueView> {
    if f.datetime.year < now.year || f.datetime.year > now.year + 2 {
        Some(
            IssueView {
                severity: IssueSeverity::Critical,
                category: IssueCategory::DataInconsistency,
                message: range_message(f, now),
                suggested_fix: Some("Check date parsing and source data accuracy"@),
            },
        )
    } else {
        None
    }
}

/// The weekday-consistency rule: when a mismatch was recorded while
/// parsing and its claimed weekday still disagrees with the fixture's
/// London-local weekday, one warning issue.
pub open spec fn consistency_issue(f: FixtureView) -> Option<IssueView> {
    match f.parse_metadata.weekday_mismatch {
        Some(mm) => match expected_weekday_of(mm.claimed_weekday) {
            Some(expected) => {
                let actual = spec_weekday_of_num(weekday_of_minutes(london_minutes_of(f.datetime)));
                if actual != expected {
                    Some(
                        IssueView {
                            severity: IssueSeverity::Warning,
                            category: IssueCategory::DateWeekdayMismatch,
                            message: consistency_message(f.datetime, actual, expected),
                            suggested_fix: Some(
                                "Verify fixture date. If date is correct, ignore weekday discrepancy."@,
                            ),
                        },
                    )
                } else {
                    None
                }
            },
            None => None,
        },
        None => None,
    }
}

/// The suspicious-time rule: a London-local hour before 8 or after 23
/// yields one warning issue.
pub open spec fn time_issue(f: FixtureView) -> Option<IssueView> {
    let c = civil_of_minutes_spec(london_minutes_of(f.datetime));
    if c.3 < 8 || c.3 > 23 {
        Some(
            IssueView {
                severity: IssueSeverity::Warning,
                category: IssueCategory::SuspiciousTime,
                message: time_message(f.datetime),
                suggested_fix: Some("Verify time zone conversion is correct"@),
            },
        )
    } else {
        None
    }
}

/// The completeness rules: a placeholder opponent gives a warning, a
/// missing or unknown venue an error.
pub open spec fn data_issues(f: FixtureView) -> Seq<IssueView> {
    (if has_substr(f.opponent, "TBD"@) || has_substr(f.opponent, "Unknown"@) {
        seq![
            IssueView {
                severity: IssueSeverity::Warning,
                category: IssueCategory::MissingData,
                message: "Opponent not yet determined"@,
                suggested_fix: Some("Check source closer to fixture date"@),
            },
        ]
    } else {
        Seq::empty()
    }) + (if has_substr(f.venue, "Unknown"@) || f.venue.len() == 0 {
        seq![
            IssueView {
                severity: IssueSeverity::Error,
                category: IssueCategory::MissingData,
                message: "Venue information missing"@,
                suggested_fix: None,
            },
        ]
    } else {
        Seq::empty()
    })
}

pub open spec fn opt_seq(o: Option<IssueView>) -> Seq<IssueView> {
    match o {
        Some(i) => seq![i],
        None => Seq::empty(),
    }
}

/// Every issue the rules collect for a non-historical fixture, in rule
/// order.
pub open spec fn issues_spec(f: FixtureView, now: Instant) -> Seq<IssueView> {
    opt_seq(range_issue(f, now)) + opt_seq(consistency_issue(f)) + opt_seq(time_issue(f))
        + data_issues(f)
}

pub open spec fn has_critical(issues: Seq<IssueView>) -> bool {
    exists|i: int| 0 <= i < issues.len() && issues[i].severity == IssueSeverity::Critical
}

/// `r` is the classification of `f` against current time `now`: a past
/// fixture is `Historical(now)`; otherwise any critical issue forces
/// `Invalid`, a non-empty issue list `ValidWithWarnings`, and an empty
/// one `Valid`.
pub open spec fn validation_matches(f: FixtureView, now: Instant, r: FixtureValidation) -> bool {
    if f.datetime.minutes < now.minutes {
        r == FixtureValidation::Historical(now)
    } else {
        let issues = issues_spec(f, now);
        match r {
            FixtureValidation::Invalid(v) => has_critical(issues) && v.deep_view() == issues,
            FixtureValidation::ValidWithWarnings(v) => !has_critical(issues) && issues.len() > 0
                && v.deep_view() == issues,
            FixtureValidation::Valid => issues.len() == 0,
            FixtureValidation::Historical(_) => false,
        }
    }
}

/// Classifies fixtures; stateless.
pub struct FixtureValidator;

impl FixtureValidator {
    fn validate_date_range(fixture: &Fixture, now: &Instant) -> (r: Option<ValidationIssue>)
        requires
            fixture.wf(),
            now.wf(),
        ensures
            match r {
                Some(i) => range_issue(fixture@, *now) == Some(i@),
                None => range_issue(fixture@, *now) is None,
            },
    {
        let current_year = now.year;
        let fixture_year = fixture.datetime.year;
        let min_year = current_year;
        let max_year = current_year + 2;
        if fixture_year < min_year || fixture_year > max_year {
            let mut msg = "Fixture date ".to_owned();
            msg.append(pad4_string(fixture.datetime.year as u64).as_str());
            msg.append("-");
            msg.append(pad2_string(fixture.datetime.month as u64).as_str());
            msg.append("-");
            msg.append(pad2_string(fixture.datetime.day as u64).as_str());
            msg.append(" is outside reasonable range (");
            msg.append(u64_to_string(min_year as u64).as_str());
            msg.append("-");
            msg.append(u64_to_string(max_year as u64).as_str());
            msg.append("). Fixtures only planned ");
            msg.append(u64_to_string((max_year - min_year) as u64).as_str());
            msg.append(" years ahead.");
            proof {
                assert(msg@ =~= range_message(fixture@, *now));
            }
            Some(
                ValidationIssue {
                    severity: IssueSeverity::Critical,
                    category: IssueCategory::DataInconsistency,
                    message: msg,
                    suggested_fix: Some("Check date parsing and source data accuracy".to_owned()),
                },
            )
        } else {
            None
        }
    }

    fn extract_expected_weekday(fixture: &Fixture) -> (r: Option<Weekday>)
        ensures
            match &fixture.parse_metadata.weekday_mismatch {
                Some(mm) => r == expected_weekday_of(mm.claimed_weekday@),
                None => r is None,
            },
    {
        match &fixture.parse_metadata.weekday_mismatch {
            Some(mm) => {
                let claimed = mm.claimed_weekday.as_str();
                if contains_ci(claimed, "sun") {
                    Some(Weekday::Sun)
                } else if contains_ci(claimed, "mon") {
                    Some(Weekday::Mon)
                } else if contains_ci(claimed, "tue") {
                    Some(Weekday::Tue)
                } else if contains_ci(claimed, "wed") {
                    Some(Weekday::Wed)
                } else if contains_ci(claimed, "thu") {
                    Some(Weekday::Thu)
                } else if contains_ci(claimed, "fri") {
                    Some(Weekday::Fri)
                } else if contains_ci(claimed, "sat") {
                    Some(Weekday::Sat)
                } else {
                    None
                }
            },
            None => None,
        }
    }

    fn validate_date_consistency(fixture: &Fixture) -> (r: Option<ValidationIssue>)
        requires
            fixture.wf(),
        ensures
            match r {
                Some(i) => consistency_issue(fixture@) == Some(i@),
                None => consistency_issue(fixture@) is None,
            },
    {
        let expected = match Self::extract_expected_weekday(fixture) {
            Some(w) => w,
            None => {
                return None;
            },
        };
        let local = london_local_time(&fixture.datetime);
        let actual = local.weekday;
        proof {
            lemma_weekday_num_roundtrip(actual);
        }
        if actual != expected {
            let mut msg = "Date ".to_owned();
            msg.append(month_abbr_display(local.month));
            msg.append(" ");
            msg.append(pad2_string(local.day as u64).as_str());
            msg.append(", ");
            msg.append(u64_to_string(local.year as u64).as_str());
            msg.append(" is a ");
            msg.append(weekday_full_name(actual));
            msg.append(", but source indicated ");
            msg.append(weekday_full_name(expected));
            msg.append(". Source may have incorrect weekday.");
            proof {
                assert(msg@ =~= consistency_message(fixture@.datetime, actual, expected));
            }
            Some(
                ValidationIssue {
                    severity: IssueSeverity::Warning,
                    category: IssueCategory::DateWeekdayMismatch,
                    message: msg,
                    suggested_fix: Some(
                        "Verify fixture date. If date is correct, ignore weekday discrepancy.".to_owned(),
                    ),
                },
            )
        } else {
            None
        }
    }

    fn validate_fixture_time(fixture: &Fixture) -> (r: Option<ValidationIssue>)
        requires
            fixture.wf(),
        ensures
            match r {
                Some(i) => time_issue(fixture@) == Some(i@),
                None => time_issue(fixture@) is None,
            },
    {
        let local = london_local_time(&fixture.datetime);
        let hour = local.hour;
        if hour < 8 || hour > 23 {
            let mut msg = "Unusual fixture time: ".to_owned();
            msg.append(u64_to_string(hour as u64).as_str());
            msg.append(":");
            msg.append(pad2_string(local.minute as u64).as_str());
            msg.append(" London time");
            proof {
                assert(msg@ =~= time_message(fixture@.datetime));
            }
            Some(
                ValidationIssue {
                    severity: IssueSeverity::Warning,
                    category: IssueCategory::SuspiciousTime,
                    message: msg,
                    suggested_fix: Some("Verify time zone conversion is correct".to_owned()),
                },
            )
        } else {
            None
        }
    }

    fn validate_fixture_data(fixture: &Fixture) -> (r: Vec<ValidationIssue>)
        ensures
            r.deep_view() == data_issues(fixture@),
    {
        let mut issues: Vec<ValidationIssue> = Vec::new();
        if str_contains(fixture.opponent.as_str(), "TBD") || str_contains(
            fixture.opponent.as_str(),
            "Unknown",
        ) {
            issues.push(
                ValidationIssue {
                    severity: IssueSeverity::Warning,
                    category: IssueCategory::MissingData,
                    message: "Opponent not yet determined".to_owned(),
                    suggested_fix: Some("Check source closer to fixture date".to_owned()),
                },
            );
        }
        if str_contains(fixture.venue.as_str(), "Unknown") || fixture.venue.as_str().is_empty() {
            issues.push(
                ValidationIssue {
                    severity: IssueSeverity::Error,
                    category: IssueCategory::MissingData,
                    message: "Venue information missing".to_owned(),
                    suggested_fix: None,
                },
            );
        }
        proof {
            assert(issues.deep_view() =~= data_issues(fixture@));
        }
        issues
    }

    /// Classify one fixture against the given current time.
    pub fn validate(fixture: &Fixture, now: &Instant) -> (r: FixtureValidation)
        requires
            fixture.wf(),
            now.wf(),
        ensures
            validation_matches(fixture@, *now, r),
    {
        if fixture.datetime.minutes < now.minutes {
            return FixtureValidation::Historical(*now);
        }
        let mut issues: Vec<ValidationIssue> = Vec::new();
        if let Some(issue) = Self::validate_date_range(fixture, now) {
            issues.push(issue);
        }
        if let Some(issue) = Self::validate_date_consistency(fixture) {
            issues.push(issue);
        }
        if let Some(issue) = Self::validate_fixture_time(fixture) {
            issues.push(issue);
        }
        let mut data = Self::validate_fixture_data(fixture);
        issues.append(&mut data);
        proof {
            assert(issues.deep_view() =~= issues_spec(fixture@, *now));
        }
        let mut has_crit = false;
        let mut has_err = false;
        let ghost iv = issues.deep_view();
        let n = issues.len();
        let mut i: usize = 0;
        while i < n
            invariant
                n == issues.len(),
                iv == issues.deep_view(),
                i <= n,
                has_crit == exists|j: int|
                    0 <= j < i && iv[j].severity == IssueSeverity::Critical,
                has_err == exists|j: int| 0 <= j < i && iv[j].severity == IssueSeverity::Error,
            decreases n - i,
    {
            proof {
                assert(iv[i as int] == issues@[i as int]@);
            }
            if matches!(issues[i].severity, IssueSeverity::Critical) {
                has_crit = true;
            }
            if matches!(issues[i].severity, IssueSeverity::Error) {
                has_err = true;
            }
            i = i + 1;
        }
        if has_crit {
            FixtureValidation::Invalid(issues)
        } else if has_err || issues.len() > 0 {
            FixtureValidation::ValidWithWarnings(issues)
        } else {
            FixtureValidation::Valid
        }
    }
}

/// A fixture strictly before the current time is classified
/// `Historical(now)`, whatever its other fields hold.
pub proof fn lemma_historical_overrides(f: FixtureView, now: Instant, r: FixtureValidation)
    requires
        validation_matches(f, now, r),
        f.datetime.minutes < now.minutes,
    ensures
        r == FixtureValidation::Historical(now),
{
}

/// The header line of a calendar description.
pub open spec fn header_text(f: FixtureView) -> Seq<char> {
    f.team + " vs "@ + f.opponent + " at "@ + f.venue + "\nCompetition: "@ + f.competition
}

/// The bullet list of issue messages appended to a description.
pub open spec fn bullets_text(issues: Seq<IssueView>) -> Seq<char>
    decreases issues.len(),
{
    if issues.len() == 0 {
        Seq::empty()
    } else {
        bullets_text(issues.drop_last()) + "\n\u{2022} "@ + issues.last().message
    }
}

/// The whole calendar description: a header, then a tier-specific block.
pub open spec fn description_text(f: FixtureView, v: FixtureValidation) -> Seq<char> {
    let h = header_text(f);
    match v {
        FixtureValidation::Valid => h,
        FixtureValidation::ValidWithWarnings(issues) => h + "\n\n\u{26a0}\u{fe0f} Data Quality Notes:"@
            + bullets_text(issues.deep_view()),
        FixtureValidation::Invalid(issues) => h + "\n\n\u{274c} Data Issues Detected:"@
            + bullets_text(issues.deep_view()),
        FixtureValidation::Historical(s) => h + "\n\n\u{1f4c5} Historical fixture (scraped "@
            + pad4(s.year as int) + "-"@ + pad2(s.month as int) + "-"@ + pad2(s.day as int) + ")"@,
    }
}

fn append_bullets(description: &mut String, issues: &Vec<ValidationIssue>)
    ensures
        final (description)@ == old(description)@ + bullets_text(issues.deep_view()),
{
    let ghost base = description@;
    let n = issues.len();
    let mut i: usize = 0;
    while i < n
        invariant
            n == issues.len(),
            i <= n,
            description@ == base + bullets_text(issues.deep_view().take(i as int)),
        decreases n - i,
    {
        description.append("\n\u{2022} ");
        description.append(issues[i].message.as_str());
        proof {
            let dv = issues.deep_view();
            assert(dv.take(i + 1).drop_last() =~= dv.take(i as int));
            assert(dv.take(i + 1).last() == dv[i as int]);
            assert(dv[i as int] == issues@[i as int]@);
            assert(description@ =~= base + bullets_text(dv.take(i + 1)));
        }
        i = i + 1;
    }
    proof {
        assert(issues.deep_view().take(n as int) =~= issues.deep_view());
    }
}

/// A fixture together with the classification computed once when it was
/// wrapped.
#[derive(Debug, Clone)]
pub struct ValidatedFixture {
    pub fixture: Fixture,
    pub validation: FixtureValidation,
}

impl ValidatedFixture {
    /// The fixture's instant is well-formed, and so is any instant the
    /// classification recorded.
    pub open spec fn wf(self) -> bool {
        self.fixture.wf() && (self.validation matches FixtureValidation::Historical(s)
            ==> s.wf())
    }

    /// Wrap a fixture, classifying it against the given current time.
    pub fn new(fixture: Fixture, now: Instant) -> (r: ValidatedFixture)
        requires
            fixture.wf(),
            now.wf(),
        ensures
            r.fixture == fixture,
            validation_matches(fixture@, now, r.validation),
            r.wf(),
    {
        let validation = FixtureValidator::validate(&fixture, &now);
        ValidatedFixture { fixture, validation }
    }

    /// Usable for planning: not `Invalid` and not `Historical`.
    pub fn is_usable(&self) -> (r: bool)
        ensures
            r == !(self.validation is Invalid || self.validation is Historical),
    {
        !(matches!(self.validation, FixtureValidation::Invalid(_) | FixtureValidation::Historical(_)))
    }

    /// The calendar-ready description: a header naming the teams, venue
    /// and competition, followed by a block for the quality tier. The
    /// text is a function of the wrapped value alone.
    pub fn get_calendar_description(&self) -> (r: String)
        requires
            self.wf(),
        ensures
            r@ == description_text(self.fixture@, self.validation),
    {
        let mut description = self.fixture.team.clone();
        description.append(" vs ");
        description.append(self.fixture.opponent.as_str());
        description.append(" at ");
        description.append(self.fixture.venue.as_str());
        description.append("\nCompetition: ");
        description.append(self.fixture.competition.as_str());
        proof {
            assert(description@ =~= header_text(self.fixture@));
        }
        match &self.validation {
            FixtureValidation::Valid => {},
            FixtureValidation::ValidWithWarnings(issues) => {
                description.append("\n\n\u{26a0}\u{fe0f} Data Quality Notes:");
                append_bullets(&mut description, issues);
            },
            FixtureValidation::Invalid(issues) => {
                description.append("\n\n\u{274c} Data Issues Detected:");
                append_bullets(&mut description, issues);
            },
            FixtureValidation::Historical(s) => {
                description.append("\n\n\u{1f4c5} Historical fixture (scraped ");
                description.append(pad4_string(s.year as u64).as_str());
                description.append("-");
                description.append(pad2_string(s.month as u64).as_str());
                description.append("-");
                description.append(pad2_string(s.day as u64).as_str());
                description.append(")");
            },
        }
        proof {
            assert(description@ =~= description_text(self.fixture@, self.validation));
        }
        description
    }
}

/// Display text of a severity.
pub open spec fn severity_text(s: IssueSeverity) -> Seq<char> {
    match s {
        IssueSeverity::Warning => "WARNING"@,
        IssueSeverity::Error => "ERROR"@,
        IssueSeverity::Critical => "CRITICAL"@,
    }
}

impl IssueSeverity {
    /// Human-readable name of the severity.
    pub fn to_display_string(&self) -> (r: String)
        ensures
            r@ == severity_text(*self),
    {
        match self {
            IssueSeverity::Warning => "WARNING".to_owned(),
            IssueSeverity::Error => "ERROR".to_owned(),
            IssueSeverity::Critical => "CRITICAL".to_owned(),
        }
    }
}

/// Display text of an issue category.
pub open spec fn category_text(c: IssueCategory) -> Seq<char> {
    match c {
        IssueCategory::DateWeekdayMismatch => "Date/Weekday Mismatch"@,
        IssueCategory::HistoricalFixture => "Historical Fixture"@,
        IssueCategory::SuspiciousTime => "Suspicious Time"@,
        IssueCategory::MissingData => "Missing Data"@,
        IssueCategory::DataInconsistency => "Data Inconsistency"@,
    }
}

impl IssueCategory {
    /// Human-readable name of the category.
    pub fn to_display_string(&self) -> (r: String)
        ensures
            r@ == category_text(*self),
    {
        match self {
            IssueCategory::DateWeekdayMismatch => "Date/Weekday Mismatch".to_owned(),
            IssueCategory::HistoricalFixture => "Historical Fixture".to_owned(),
            IssueCategory::SuspiciousTime => "Suspicious Time".to_owned(),
            IssueCategory::MissingData => "Missing Data".to_owned(),
            IssueCategory::DataInconsistency => "Data Inconsistency".to_owned(),
        }
    }
}

} // verus!

