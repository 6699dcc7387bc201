use holiday_validator::calendar::CalendarDate;
use holiday_validator::turkey_holiday_validator::TurkeyHolidayValidator;

#[test]
fn test_turkey_fixed_holidays() {
    let validator = TurkeyHolidayValidator::new(false);
    assert!(validator.is_holiday(CalendarDate::from_ymd(2024, 4, 23).unwrap()));
}

#[test]
fn test_turkey_islamic_holidays() {
    let validator = TurkeyHolidayValidator::new(false);
    assert!(validator.is_holiday(CalendarDate::from_ymd(2024, 4, 10).unwrap()));
}

#[test]
fn turkey_custom_holiday_forwards() {
    let mut validator = TurkeyHolidayValidator::new(false);
    let d = CalendarDate::from_ymd(2024, 3, 5).unwrap();
    assert!(!validator.is_holiday(d));
    validator.add_custom_holiday(d, false, false);
    assert!(validator.is_holiday(d));
}
