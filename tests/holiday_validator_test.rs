use holiday_validator::calendar::CalendarDate;
use holiday_validator::holiday_validator::{lunar_day_offset, HolidayValidator};

fn date(y: i32, m: u32, d: u32) -> CalendarDate {
    CalendarDate::from_ymd(y, m, d).unwrap()
}

#[test]
fn test_fixed_holidays() {
    let validator = HolidayValidator::new(false);
    assert!(validator.is_holiday(date(2024, 4, 23)));
}

#[test]
fn test_islamic_holidays() {
    let validator = HolidayValidator::new(false);
    assert!(validator.is_holiday(date(2024, 4, 10)));
}

#[test]
fn sunday_is_holiday_under_both_flags() {
    assert!(HolidayValidator::new(false).is_holiday(date(2024, 4, 14)));
    assert!(HolidayValidator::new(true).is_holiday(date(2024, 4, 14)));
}

#[test]
fn saturday_follows_flag() {
    assert!(!HolidayValidator::new(false).is_holiday(date(2024, 4, 13)));
    assert!(HolidayValidator::new(true).is_holiday(date(2024, 4, 13)));
}

#[test]
fn weekday_is_not_holiday() {
    assert!(!HolidayValidator::new(true).is_holiday(date(2024, 4, 17)));
}

#[test]
fn april_23_every_year() {
    let validator = HolidayValidator::new(false);
    assert!(validator.is_holiday(date(2023, 4, 23)));
    assert!(validator.is_holiday(date(2099, 4, 23)));
}

#[test]
fn every_fixed_holiday_of_2025() {
    let validator = HolidayValidator::new(false);
    for (m, d) in [(1, 1), (4, 23), (5, 1), (5, 19), (7, 20), (8, 30), (10, 29)] {
        assert!(validator.is_holiday(date(2025, m, d)));
    }
    assert!(!validator.is_holiday(date(2025, 10, 28)));
}

#[test]
fn lunar_anchor_span_in_anchor_year() {
    let validator = HolidayValidator::new(false);
    assert!(validator.is_holiday(date(2024, 4, 10)));
    assert!(validator.is_holiday(date(2024, 4, 11)));
    assert!(validator.is_holiday(date(2024, 4, 12)));
    assert!(!validator.is_holiday(date(2024, 4, 13)));
    assert!(!validator.is_holiday(date(2024, 4, 9)));
}

#[test]
fn second_lunar_anchor_lasts_four_days() {
    let validator = HolidayValidator::new(false);
    assert!(validator.is_holiday(date(2024, 6, 28)));
    assert!(validator.is_holiday(date(2024, 7, 1)));
    assert!(!validator.is_holiday(date(2024, 7, 2)));
    assert!(!validator.is_holiday(date(2024, 6, 27)));
}

#[test]
fn lunar_offsets_round_half_away_from_zero() {
    assert_eq!(lunar_day_offset(0), 0);
    assert_eq!(lunar_day_offset(1), 354);
    assert_eq!(lunar_day_offset(2), 709);
    assert_eq!(lunar_day_offset(-1), -354);
    assert_eq!(lunar_day_offset(-2), -709);
    assert_eq!(lunar_day_offset(3), 1063);
}

#[test]
fn lunar_holiday_projected_one_year_later() {
    let validator = HolidayValidator::new(false);
    assert!(validator.is_holiday(date(2025, 3, 31)));
    assert!(validator.is_holiday(date(2025, 4, 1)));
    assert!(!validator.is_holiday(date(2025, 4, 2)));
}

#[test]
fn lunar_holiday_projected_two_years_later() {
    let validator = HolidayValidator::new(false);
    assert!(!validator.is_holiday(date(2026, 3, 19)));
    assert!(validator.is_holiday(date(2026, 3, 20)));
    assert!(!validator.is_holiday(date(2026, 3, 23)));
}

#[test]
fn lunar_holiday_projected_one_year_earlier() {
    let validator = HolidayValidator::new(false);
    assert!(validator.is_holiday(date(2023, 4, 24)));
    assert!(!validator.is_holiday(date(2023, 4, 25)));
}

#[test]
fn single_custom_holiday_matches_exact_date_only() {
    let mut validator = HolidayValidator::new(false);
    validator.add_custom_holiday(date(2024, 3, 5), false, false);
    assert!(validator.is_holiday(date(2024, 3, 5)));
    assert!(!validator.is_holiday(date(2025, 3, 5)));
    assert!(!validator.is_holiday(date(2024, 3, 6)));
}

#[test]
fn recurring_custom_holiday_matches_every_year() {
    let mut validator = HolidayValidator::new(false);
    validator.add_custom_holiday(date(2024, 3, 6), true, false);
    assert!(validator.is_holiday(date(2023, 3, 6)));
    assert!(validator.is_holiday(date(2030, 3, 6)));
    assert!(!validator.is_holiday(date(2030, 3, 7)));
}

#[test]
fn repeated_custom_holiday_is_idempotent() {
    let mut once = HolidayValidator::new(false);
    once.add_custom_holiday(date(2024, 3, 5), false, false);
    let mut twice = HolidayValidator::new(false);
    twice.add_custom_holiday(date(2024, 3, 5), false, false);
    twice.add_custom_holiday(date(2024, 3, 5), false, false);
    for (y, m, d) in [(2024, 3, 5), (2024, 3, 6), (2025, 3, 5), (2024, 4, 13), (2024, 4, 23)] {
        assert_eq!(once.is_holiday(date(y, m, d)), twice.is_holiday(date(y, m, d)));
    }
}

#[test]
fn lunar_linked_custom_on_lunar_date_matches_any_date() {
    let mut validator = HolidayValidator::new(false);
    validator.add_custom_holiday(date(2024, 4, 11), false, true);
    assert!(validator.is_holiday(date(2024, 3, 7)));
}

#[test]
fn lunar_linked_custom_off_lunar_date_matches_own_date() {
    let mut validator = HolidayValidator::new(false);
    validator.add_custom_holiday(date(2024, 3, 5), false, true);
    assert!(validator.is_holiday(date(2024, 3, 5)));
    assert!(!validator.is_holiday(date(2024, 3, 7)));
}
