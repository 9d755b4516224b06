use fixture_scraper::parsing::{DateTimeParser, ParsingStrategy};
use fixture_scraper::time::{Instant, Weekday};
use fixture_scraper::ScrapeError;

fn create_london_parser() -> DateTimeParser {
    // The original anchors to the wall clock when no time is injected;
    // here a fixed time keeps every run on the same calendar.
    DateTimeParser::new("Europe/London".to_string())
        .with_current_time(Instant::from_ymd_hm(2025, 7, 27, 12, 0).unwrap())
}

fn create_test_parser_with_fixed_date(mock_now: Instant) -> DateTimeParser {
    DateTimeParser::new("Europe/London".to_string()).with_current_time(mock_now)
}

#[test]
fn test_exact_parsing_success() {
    // Mock July 27, 2025 as current time (Sunday)
    let mock_now = Instant::from_ymd_hm(2025, 7, 27, 12, 0).unwrap();
    let parser = create_test_parser_with_fixed_date(mock_now);

    // July 27, 2025 is actually a Sunday - should parse exactly
    let result = parser.parse_with_weekday_tolerance("Sun Jul 27", "15:30");
    assert!(result.is_ok());

    let (_datetime, metadata) = result.unwrap();
    assert_eq!(metadata.parsing_strategy, ParsingStrategy::ExactMatch);
    assert!(metadata.weekday_mismatch.is_none());
}

#[test]
fn test_weekday_mismatch_tolerance() {
    // Mock July 27, 2025 as current time (Sunday)
    let mock_now = Instant::from_ymd_hm(2025, 7, 27, 12, 0).unwrap();
    let parser = create_test_parser_with_fixed_date(mock_now);

    // July 27, 2025 is Sunday, but we claim it's Monday - should use weekday tolerance
    let result = parser.parse_with_weekday_tolerance("Mon Jul 27", "15:30");
    assert!(result.is_ok());

    let (_datetime, metadata) = result.unwrap();
    assert_eq!(metadata.parsing_strategy, ParsingStrategy::WeekdayTolerant);
    assert!(metadata.weekday_mismatch.is_some());

    let mismatch = metadata.weekday_mismatch.unwrap();
    assert_eq!(mismatch.claimed_weekday, "Mon");
    assert_eq!(mismatch.actual_weekday, "Sunday");
}

#[test]
fn test_timezone_info_generation() {
    let parser = create_london_parser();

    let result = parser.parse_with_weekday_tolerance("Mon Jul 27", "15:30");
    assert!(result.is_ok());

    let (_, metadata) = result.unwrap();
    let timezone_info = metadata.to_timezone_info();

    assert!(timezone_info.contains("claimed Mon, actually Sunday"));
    assert!(timezone_info.contains("weekday-tolerant parsing"));
    assert!(timezone_info.contains("Europe/London"));
}

#[test]
fn test_complete_parsing_failure() {
    let parser = create_london_parser();

    // Completely invalid date
    let result = parser.parse_with_weekday_tolerance("InvalidDay Blah 99", "25:99");
    assert!(result.is_err());

    if let Err(ScrapeError::InvalidDateTime(msg)) = result {
        assert!(msg.contains("tried exact, weekday-tolerant, and year variants"));
    } else {
        panic!("Expected InvalidDateTime error");
    }
}

#[test]
fn test_year_assumption_fallback() {
    // Mock current time as Jan 15, 2025 (which is a Wednesday)
    let mock_now = Instant::from_ymd_hm(2025, 1, 15, 12, 0).unwrap();
    let parser = create_test_parser_with_fixed_date(mock_now);

    // "Mon Jan 1": Jan 1, 2025 is a Wednesday, so the exact stage fails,
    // and the weekday-tolerant stage succeeds within 2025.
    let result = parser.parse_with_weekday_tolerance("Mon Jan 1", "12:00");
    assert!(result.is_ok());

    let (datetime, metadata) = result.unwrap();

    assert_eq!(metadata.parsing_strategy, ParsingStrategy::WeekdayTolerant);
    assert_eq!(datetime.year, 2025);
    assert!(metadata.weekday_mismatch.is_some());
}

#[test]
fn test_year_assumption_mechanism() {
    let mock_now = Instant::from_ymd_hm(2025, 1, 15, 12, 0).unwrap();
    let parser = create_test_parser_with_fixed_date(mock_now);

    // Wed Jan 15, 2025 should parse exactly since the mock date is Jan 15, 2025 (Wed)
    let result = parser.parse_with_weekday_tolerance("Wed Jan 15", "15:30");
    assert!(result.is_ok());

    let (datetime, metadata) = result.unwrap();

    assert_eq!(metadata.parsing_strategy, ParsingStrategy::ExactMatch);
    assert_eq!(datetime.year, 2025);
    assert!(metadata.weekday_mismatch.is_none());
}

#[test]
fn test_weekday_matching_logic() {
    let parser = create_london_parser();

    assert!(parser.weekday_matches("Sun", Weekday::Sun));
    assert!(parser.weekday_matches("Sunday", Weekday::Sun));
    assert!(parser.weekday_matches("sun", Weekday::Sun));
    assert!(parser.weekday_matches("SUNDAY", Weekday::Sun));
    assert!(!parser.weekday_matches("Mon", Weekday::Sun));
}

#[test]
fn test_exact_parse_instant_utc() {
    // 15:30 London in July is BST (UTC+1), so the stored instant is 14:30 UTC.
    let mock_now = Instant::from_ymd_hm(2025, 7, 27, 12, 0).unwrap();
    let parser = create_test_parser_with_fixed_date(mock_now);

    let (datetime, metadata) = parser
        .parse_with_weekday_tolerance("Sun Jul 27", "15:30")
        .unwrap();
    assert_eq!(datetime, Instant::from_ymd_hm(2025, 7, 27, 14, 30).unwrap());
    assert_eq!(metadata.parsing_strategy, ParsingStrategy::ExactMatch);
    assert!(!metadata.has_data_quality_issues());
}

#[test]
fn test_tolerant_parse_same_instant() {
    // A wrong stated weekday still lands on the same instant as the exact parse.
    let mock_now = Instant::from_ymd_hm(2025, 7, 27, 12, 0).unwrap();
    let parser = create_test_parser_with_fixed_date(mock_now);

    let (datetime, metadata) = parser
        .parse_with_weekday_tolerance("Mon Jul 27", "15:30")
        .unwrap();
    assert_eq!(datetime, Instant::from_ymd_hm(2025, 7, 27, 14, 30).unwrap());
    assert_eq!(metadata.parsing_strategy, ParsingStrategy::WeekdayTolerant);
    let mismatch = metadata.weekday_mismatch.unwrap();
    assert_eq!(mismatch.claimed_weekday, "Mon");
    assert_eq!(mismatch.actual_weekday, "Sunday");
    assert_eq!(mismatch.date, "Jul 27");
}

#[test]
fn test_year_assumption_leap_day() {
    // Feb 29 does not exist in 2025, so both current-year stages fail;
    // Feb 29, 2024 was a Thursday, so the year-shifted exact stage succeeds.
    let mock_now = Instant::from_ymd_hm(2025, 1, 15, 12, 0).unwrap();
    let parser = create_test_parser_with_fixed_date(mock_now);

    let (datetime, metadata) = parser
        .parse_with_weekday_tolerance("Thu Feb 29", "12:00")
        .unwrap();
    assert_eq!(metadata.parsing_strategy, ParsingStrategy::YearAssumption(2024));
    assert_eq!(datetime.year, 2024);
    assert_eq!(datetime.month, 2);
    assert_eq!(datetime.day, 29);
    assert!(metadata.weekday_mismatch.is_none());
    assert!(metadata.has_data_quality_issues());
}

#[test]
fn test_parse_deterministic() {
    // Identical configuration and inputs give bit-identical results.
    let mock_now = Instant::from_ymd_hm(2025, 7, 27, 12, 0).unwrap();
    let parser_a = create_test_parser_with_fixed_date(mock_now);
    let parser_b = create_test_parser_with_fixed_date(mock_now);

    let (dt_a, meta_a) = parser_a
        .parse_with_weekday_tolerance("Mon Jul 27", "15:30")
        .unwrap();
    let (dt_b, meta_b) = parser_b
        .parse_with_weekday_tolerance("Mon Jul 27", "15:30")
        .unwrap();
    assert_eq!(dt_a, dt_b);
    assert_eq!(meta_a, meta_b);
}

#[test]
fn test_parse_failure_message_exact() {
    let parser = create_london_parser();
    let result = parser.parse_with_weekday_tolerance("InvalidDay Blah 99", "25:99");
    match result {
        Err(ScrapeError::InvalidDateTime(msg)) => {
            assert_eq!(
                msg,
                "Could not parse datetime: InvalidDay Blah 99 25:99 \
                 (tried exact, weekday-tolerant, and year variants)"
            );
        }
        _ => panic!("Expected InvalidDateTime error"),
    }
}

#[test]
fn test_full_names_parse_exactly() {
    let mock_now = Instant::from_ymd_hm(2025, 7, 27, 12, 0).unwrap();
    let parser = create_test_parser_with_fixed_date(mock_now);

    let (datetime, metadata) = parser
        .parse_with_weekday_tolerance("Sunday July 27", "15:30")
        .unwrap();
    assert_eq!(metadata.parsing_strategy, ParsingStrategy::ExactMatch);
    assert_eq!(datetime, Instant::from_ymd_hm(2025, 7, 27, 14, 30).unwrap());
}

#[test]
fn test_mixed_name_forms_parse_exactly() {
    // An abbreviated weekday combines freely with a full month name.
    let mock_now = Instant::from_ymd_hm(2025, 7, 27, 12, 0).unwrap();
    let parser = create_test_parser_with_fixed_date(mock_now);

    let (_, metadata) = parser
        .parse_with_weekday_tolerance("Sun July 27", "15:30")
        .unwrap();
    assert_eq!(metadata.parsing_strategy, ParsingStrategy::ExactMatch);
    assert!(metadata.weekday_mismatch.is_none());

    // A comma-suffixed weekday pairs with an abbreviated month only, so
    // the full month name here falls back to the tolerant stage.
    let (_, metadata) = parser
        .parse_with_weekday_tolerance("Sun, July 27", "15:30")
        .unwrap();
    assert_eq!(metadata.parsing_strategy, ParsingStrategy::WeekdayTolerant);
    assert!(metadata.weekday_mismatch.is_none());

    let (_, metadata) = parser
        .parse_with_weekday_tolerance("Sun, Jul 27", "15:30")
        .unwrap();
    assert_eq!(metadata.parsing_strategy, ParsingStrategy::ExactMatch);
}

#[test]
fn test_strategy_display_strings() {
    assert_eq!(ParsingStrategy::ExactMatch.to_display_string(), "Exact Match");
    assert_eq!(
        ParsingStrategy::WeekdayTolerant.to_display_string(),
        "Weekday Tolerant"
    );
    assert_eq!(
        ParsingStrategy::YearAssumption(2024).to_display_string(),
        "Year Assumption (2024)"
    );
    assert_eq!(
        ParsingStrategy::TimezoneFallback("UTC".to_string()).to_display_string(),
        "Timezone Fallback (UTC)"
    );
}
