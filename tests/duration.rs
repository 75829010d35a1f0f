use rhy::{parse_duration_with_units, DurationError};

#[test]
fn parses_seconds() {
    assert_eq!(parse_duration_with_units("20s"), Ok(20));
}

#[test]
fn parses_minutes_both_spellings() {
    assert_eq!(parse_duration_with_units("5m"), Ok(300));
    assert_eq!(parse_duration_with_units("5min"), Ok(300));
}

#[test]
fn parses_hours() {
    assert_eq!(parse_duration_with_units("1h"), Ok(3600));
}

#[test]
fn allows_space_between_number_and_unit() {
    assert_eq!(parse_duration_with_units("7 s"), Ok(7));
    assert_eq!(parse_duration_with_units("2\t min"), Ok(120));
}

#[test]
fn zero_window_is_accepted() {
    assert_eq!(parse_duration_with_units("0s"), Ok(0));
}

#[test]
fn rejects_bad_forms() {
    for bad in ["20x", "s20", "-5s", "", "s", "5", " 5s", "5s ", "5 mins", "5hh", "٣s", "5é"] {
        assert_eq!(
            parse_duration_with_units(bad),
            Err(DurationError::InvalidDurationFormat),
            "{:?}",
            bad
        );
    }
}

#[test]
fn largest_values() {
    assert_eq!(
        parse_duration_with_units("18446744073709551615s"),
        Ok(u64::MAX)
    );
    assert_eq!(
        parse_duration_with_units("18446744073709551616s"),
        Err(DurationError::InvalidDurationFormat)
    );
    assert_eq!(
        parse_duration_with_units("5124095576030431h"),
        Ok(5124095576030431 * 3600)
    );
    assert_eq!(
        parse_duration_with_units("5124095576030432h"),
        Err(DurationError::InvalidDurationFormat)
    );
    assert_eq!(
        parse_duration_with_units("000000000000000000000000042m"),
        Ok(42 * 60)
    );
}

#[test]
fn allows_unicode_white_space_between_number_and_unit() {
    assert_eq!(parse_duration_with_units("5\u{a0}m"), Ok(300));
    assert_eq!(parse_duration_with_units("5\u{3000}h"), Ok(18000));
    assert_eq!(parse_duration_with_units("2\u{85}\u{2003}min"), Ok(120));
    assert_eq!(parse_duration_with_units("9\u{2028}\u{202f}\u{205f}s"), Ok(9));
}

#[test]
fn rejects_characters_that_are_not_white_space() {
    assert_eq!(
        parse_duration_with_units("5\u{200b}s"),
        Err(DurationError::InvalidDurationFormat)
    );
    assert_eq!(
        parse_duration_with_units("\u{a0}5s"),
        Err(DurationError::InvalidDurationFormat)
    );
}
