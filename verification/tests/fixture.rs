use fixture_scraper::parsing::{ParseMetadata, ParsingStrategy};
use fixture_scraper::time::{Instant, Weekday};
use fixture_scraper::{Fixture, ScrapeError};

fn create_test_fixture() -> Fixture {
    let metadata = ParseMetadata {
        original_source: "Fri Aug 15 16:30".to_string(),
        weekday_mismatch: None,
        timezone_assumptions: "Parsed as UTC timezone".to_string(),
        parsing_strategy: ParsingStrategy::ExactMatch,
    };

    Fixture::new(
        "Arsenal".to_string(),
        "Chelsea".to_string(),
        Instant::from_ymd_hm(2025, 8, 15, 16, 30).unwrap(),
        "Emirates Stadium".to_string(),
        "Premier League".to_string(),
        metadata,
    )
}

#[test]
fn test_fixture_creation() {
    let fixture = create_test_fixture();

    assert_eq!(fixture.team, "Arsenal");
    assert_eq!(fixture.opponent, "Chelsea");
    assert_eq!(fixture.venue, "Emirates Stadium");
    assert_eq!(fixture.competition, "Premier League");
    assert_eq!(fixture.parse_metadata.original_source, "Fri Aug 15 16:30");
}

#[test]
fn test_fixture_london_time_conversion() {
    let fixture = create_test_fixture();
    let london_time = fixture.to_london_time();

    // In August, London is BST (UTC+1)
    assert_eq!(london_time.hour, 17); // 16:30 UTC becomes 17:30 BST
    assert_eq!(london_time.minute, 30);
}

#[test]
fn test_scrape_error_display() {
    let network_error = ScrapeError::Network("Connection failed".to_string());
    let parse_error = ScrapeError::Parse("HTML malformed".to_string());
    let datetime_error = ScrapeError::InvalidDateTime("Invalid format".to_string());
    let missing_error = ScrapeError::MissingElement("No fixture found".to_string());

    assert_eq!(
        network_error.to_display_string(),
        "Network error: Connection failed"
    );
    assert_eq!(parse_error.to_display_string(), "Parse error: HTML malformed");
    assert_eq!(
        datetime_error.to_display_string(),
        "Invalid datetime: Invalid format"
    );
    assert_eq!(
        missing_error.to_display_string(),
        "Missing element: No fixture found"
    );
}

#[test]
fn test_error_message_quality() {
    // Error messages should be helpful for debugging
    let network_error =
        ScrapeError::Network("Failed to launch browser: Chrome not found".to_string());
    let error_msg = network_error.to_display_string();

    assert!(error_msg.contains("Network error"));
    assert!(error_msg.contains("Failed to launch browser"));
    assert!(error_msg.contains("Chrome not found"));

    // Error messages should be actionable
    assert!(!error_msg.is_empty());
    assert!(error_msg.len() > 10); // Substantial error messages
}

#[test]
fn test_fixture_equality() {
    let fixture1 = create_test_fixture();
    let fixture2 = create_test_fixture();

    assert_eq!(fixture1, fixture2);
}

#[test]
fn test_timezone_handling_winter() {
    // Test GMT/BST transition - January fixture
    let metadata = ParseMetadata {
        original_source: "Wed Jan 15 15:00".to_string(),
        weekday_mismatch: None,
        timezone_assumptions: "Parsed as UTC timezone".to_string(),
        parsing_strategy: ParsingStrategy::ExactMatch,
    };

    let winter_fixture = Fixture::new(
        "Arsenal".to_string(),
        "Liverpool".to_string(),
        Instant::from_ymd_hm(2025, 1, 15, 15, 0).unwrap(),
        "Emirates Stadium".to_string(),
        "Premier League".to_string(),
        metadata,
    );

    let london_time = winter_fixture.to_london_time();
    // In January, London is GMT (UTC+0)
    assert_eq!(london_time.hour, 15); // 15:00 UTC stays 15:00 GMT
}

#[test]
fn test_instant_calendar_arithmetic() {
    // Leap-day handling and weekday computation on the library's own calendar.
    assert!(Instant::from_ymd_hm(2024, 2, 29, 12, 0).is_some());
    assert!(Instant::from_ymd_hm(2025, 2, 29, 12, 0).is_none());
    assert!(Instant::from_ymd_hm(2025, 4, 31, 12, 0).is_none());
    assert!(Instant::from_ymd_hm(2025, 1, 1, 24, 0).is_none());

    let sunday = Instant::from_ymd_hm(2025, 7, 27, 12, 0).unwrap();
    assert_eq!(sunday.weekday(), Weekday::Sun);
    let thursday = Instant::from_ymd_hm(2024, 2, 29, 12, 0).unwrap();
    assert_eq!(thursday.weekday(), Weekday::Thu);
    let epoch_day = Instant::from_ymd_hm(1970, 1, 1, 0, 0).unwrap();
    assert_eq!(epoch_day.minutes, 0);
    assert_eq!(epoch_day.weekday(), Weekday::Thu);
}

#[test]
fn test_timezone_info_without_mismatch() {
    let fixture = create_test_fixture();
    let info = fixture.parse_metadata.to_timezone_info();
    assert_eq!(info, "Parsed as UTC timezone - Fri Aug 15 16:30");
    assert!(!fixture.parse_metadata.has_data_quality_issues());
}
