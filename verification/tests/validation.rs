use fixture_scraper::parsing::{ParseMetadata, ParsingStrategy, WeekdayMismatch};
use fixture_scraper::time::Instant;
use fixture_scraper::validation::{
    FixtureValidation, IssueCategory, IssueSeverity, ValidatedFixture,
};
use fixture_scraper::Fixture;

fn create_test_fixture() -> Fixture {
    let metadata = ParseMetadata {
        original_source: "Fri Aug 15 16:30".to_string(),
        weekday_mismatch: None,
        timezone_assumptions: "Parsed as Europe/London timezone".to_string(),
        parsing_strategy: ParsingStrategy::ExactMatch,
    };

    Fixture::new(
        "Arsenal".to_string(),
        "Chelsea".to_string(),
        Instant::from_ymd_hm(2025, 8, 15, 16, 30).unwrap(), // Friday
        "Emirates Stadium".to_string(),
        "Premier League".to_string(),
        metadata,
    )
}

// The original reads the wall clock; validation here is always anchored
// to the same fixed current time so every run sees the same calendar.
fn fixed_now() -> Instant {
    Instant::from_ymd_hm(2025, 7, 1, 12, 0).unwrap()
}

#[test]
fn test_valid_fixture() {
    let fixture = create_test_fixture();
    let validated = ValidatedFixture::new(fixture, fixed_now());

    assert!(validated.is_usable());
    assert!(matches!(validated.validation, FixtureValidation::Valid));
}

#[test]
fn test_historical_fixture() {
    let mut fixture = create_test_fixture();
    fixture.datetime = Instant::from_ymd_hm(2020, 1, 1, 15, 0).unwrap();

    let validated = ValidatedFixture::new(fixture, fixed_now());
    assert!(!validated.is_usable()); // Historical fixtures are not usable
    assert!(matches!(
        validated.validation,
        FixtureValidation::Historical(_)
    ));
}

#[test]
fn test_weekday_mismatch_detection() {
    let mut fixture = create_test_fixture();
    // Aug 15, 2025 is actually a Friday, not a Sunday
    fixture.parse_metadata.weekday_mismatch = Some(WeekdayMismatch {
        claimed_weekday: "Sun".to_string(),
        actual_weekday: "Friday".to_string(),
        date: "Aug 15".to_string(),
    });
    fixture.parse_metadata.parsing_strategy = ParsingStrategy::WeekdayTolerant;

    let validated = ValidatedFixture::new(fixture, fixed_now());
    assert!(validated.is_usable()); // Still usable, just warned

    if let FixtureValidation::ValidWithWarnings(issues) = &validated.validation {
        assert!(issues
            .iter()
            .any(|i| i.category == IssueCategory::DateWeekdayMismatch));
    } else {
        panic!("Expected validation warnings");
    }
}

#[test]
fn test_suspicious_time() {
    let mut fixture = create_test_fixture();
    // 3 AM UTC = 4 AM BST
    fixture.datetime = Instant::from_ymd_hm(2025, 8, 15, 3, 0).unwrap();

    let validated = ValidatedFixture::new(fixture, fixed_now());

    if let FixtureValidation::ValidWithWarnings(issues) = &validated.validation {
        assert!(issues
            .iter()
            .any(|i| i.category == IssueCategory::SuspiciousTime));
    } else {
        panic!("Expected validation warnings for suspicious time");
    }
}

#[test]
fn test_missing_data() {
    let mut fixture = create_test_fixture();
    fixture.opponent = "TBD Opponent".to_string();
    fixture.venue = "Unknown Venue".to_string();

    let validated = ValidatedFixture::new(fixture, fixed_now());

    if let FixtureValidation::ValidWithWarnings(issues) = &validated.validation {
        assert!(issues
            .iter()
            .any(|i| i.category == IssueCategory::MissingData));
        assert!(issues.len() >= 2); // Both opponent and venue issues
    } else {
        panic!("Expected validation warnings for missing data");
    }
}

#[test]
fn test_date_range_validation() {
    let mut fixture = create_test_fixture();
    // Year 2030 is beyond the 2-year limit from 2025
    fixture.datetime = Instant::from_ymd_hm(2030, 8, 15, 16, 30).unwrap();

    let validated = ValidatedFixture::new(fixture, fixed_now());
    assert!(!validated.is_usable());

    if let FixtureValidation::Invalid(issues) = &validated.validation {
        assert!(issues.iter().any(|i| i.severity == IssueSeverity::Critical));
        assert!(issues
            .iter()
            .any(|i| i.category == IssueCategory::DataInconsistency));
    } else {
        panic!("Expected invalid fixture due to date range");
    }
}

#[test]
fn test_calendar_description() {
    let mut fixture = create_test_fixture();
    fixture.parse_metadata.weekday_mismatch = Some(WeekdayMismatch {
        claimed_weekday: "Sun".to_string(),
        actual_weekday: "Friday".to_string(),
        date: "Aug 15".to_string(),
    });
    fixture.parse_metadata.parsing_strategy = ParsingStrategy::WeekdayTolerant;

    let validated = ValidatedFixture::new(fixture, fixed_now());
    let description = validated.get_calendar_description();

    assert!(description.contains("Arsenal vs Chelsea"));
    assert!(description.contains("\u{26a0}\u{fe0f} Data Quality Notes"));
    assert!(description.contains("Date"));
}

#[test]
fn test_placeholder_opponent_single_warning() {
    // An opponent marked TBD, with everything else in order, gives exactly
    // one MissingData warning and keeps the fixture usable.
    let mut fixture = create_test_fixture();
    fixture.opponent = "TBD".to_string();

    let validated = ValidatedFixture::new(fixture, fixed_now());
    assert!(validated.is_usable());

    if let FixtureValidation::ValidWithWarnings(issues) = &validated.validation {
        assert_eq!(issues.len(), 1);
        assert_eq!(issues[0].category, IssueCategory::MissingData);
        assert_eq!(issues[0].severity, IssueSeverity::Warning);
        assert_eq!(issues[0].message, "Opponent not yet determined");
    } else {
        panic!("Expected exactly one warning for a TBD opponent");
    }
}

#[test]
fn test_far_future_fixture_unusable() {
    // A fixture five years out is invalid and unusable, whatever else holds.
    let mut fixture = create_test_fixture();
    fixture.datetime = Instant::from_ymd_hm(2030, 1, 10, 15, 0).unwrap();

    let validated = ValidatedFixture::new(fixture, fixed_now());
    assert!(!validated.is_usable());
    assert!(matches!(validated.validation, FixtureValidation::Invalid(_)));
}

#[test]
fn test_range_message_exact() {
    let mut fixture = create_test_fixture();
    fixture.datetime = Instant::from_ymd_hm(2030, 8, 15, 16, 30).unwrap();

    let validated = ValidatedFixture::new(fixture, fixed_now());
    if let FixtureValidation::Invalid(issues) = &validated.validation {
        assert_eq!(issues.len(), 1);
        assert_eq!(
            issues[0].message,
            "Fixture date 2030-08-15 is outside reasonable range (2025-2027). \
             Fixtures only planned 2 years ahead."
        );
        assert_eq!(
            issues[0].suggested_fix.as_deref(),
            Some("Check date parsing and source data accuracy")
        );
    } else {
        panic!("Expected invalid fixture due to date range");
    }
}

#[test]
fn test_suspicious_time_message_exact() {
    let mut fixture = create_test_fixture();
    fixture.datetime = Instant::from_ymd_hm(2025, 8, 15, 3, 0).unwrap();

    let validated = ValidatedFixture::new(fixture, fixed_now());
    if let FixtureValidation::ValidWithWarnings(issues) = &validated.validation {
        assert_eq!(issues.len(), 1);
        assert_eq!(issues[0].message, "Unusual fixture time: 4:00 London time");
    } else {
        panic!("Expected a suspicious-time warning");
    }
}

#[test]
fn test_consistency_message_exact() {
    let mut fixture = create_test_fixture();
    fixture.parse_metadata.weekday_mismatch = Some(WeekdayMismatch {
        claimed_weekday: "Sun".to_string(),
        actual_weekday: "Friday".to_string(),
        date: "Aug 15".to_string(),
    });

    let validated = ValidatedFixture::new(fixture, fixed_now());
    if let FixtureValidation::ValidWithWarnings(issues) = &validated.validation {
        assert_eq!(issues.len(), 1);
        assert_eq!(
            issues[0].message,
            "Date Aug 15, 2025 is a Friday, but source indicated Sunday. \
             Source may have incorrect weekday."
        );
    } else {
        panic!("Expected a weekday-consistency warning");
    }
}

#[test]
fn test_venue_error_alone_keeps_usable() {
    // A missing venue is an error, not critical: the fixture stays usable
    // but carries the issue.
    let mut fixture = create_test_fixture();
    fixture.venue = "".to_string();

    let validated = ValidatedFixture::new(fixture, fixed_now());
    assert!(validated.is_usable());
    if let FixtureValidation::ValidWithWarnings(issues) = &validated.validation {
        assert_eq!(issues.len(), 1);
        assert_eq!(issues[0].severity, IssueSeverity::Error);
        assert_eq!(issues[0].message, "Venue information missing");
        assert!(issues[0].suggested_fix.is_none());
    } else {
        panic!("Expected a venue error");
    }
}

#[test]
fn test_calendar_description_idempotent() {
    let mut fixture = create_test_fixture();
    fixture.opponent = "TBD".to_string();
    let validated = ValidatedFixture::new(fixture, fixed_now());

    let first = validated.get_calendar_description();
    let second = validated.get_calendar_description();
    assert_eq!(first, second);
}

#[test]
fn test_historical_description_names_scrape_date() {
    let mut fixture = create_test_fixture();
    fixture.datetime = Instant::from_ymd_hm(2020, 1, 1, 15, 0).unwrap();

    let validated = ValidatedFixture::new(fixture, fixed_now());
    let description = validated.get_calendar_description();
    assert!(description.contains("Historical fixture (scraped 2025-07-01)"));
}

#[test]
fn test_severity_and_category_display() {
    assert_eq!(IssueSeverity::Warning.to_display_string(), "WARNING");
    assert_eq!(IssueSeverity::Error.to_display_string(), "ERROR");
    assert_eq!(IssueSeverity::Critical.to_display_string(), "CRITICAL");
    assert_eq!(
        IssueCategory::DateWeekdayMismatch.to_display_string(),
        "Date/Weekday Mismatch"
    );
    assert_eq!(
        IssueCategory::HistoricalFixture.to_display_string(),
        "Historical Fixture"
    );
    assert_eq!(
        IssueCategory::SuspiciousTime.to_display_string(),
        "Suspicious Time"
    );
    assert_eq!(IssueCategory::MissingData.to_display_string(), "Missing Data");
    assert_eq!(
        IssueCategory::DataInconsistency.to_display_string(),
        "Data Inconsistency"
    );
}

#[test]
fn test_historical_overrides_other_defects() {
    // A past fixture full of other problems is still plainly Historical.
    let mut fixture = create_test_fixture();
    fixture.datetime = Instant::from_ymd_hm(2020, 1, 1, 3, 0).unwrap();
    fixture.opponent = "TBD".to_string();
    fixture.venue = "Unknown".to_string();

    let validated = ValidatedFixture::new(fixture, fixed_now());
    assert!(matches!(
        validated.validation,
        FixtureValidation::Historical(_)
    ));
    assert!(!validated.is_usable());
}
