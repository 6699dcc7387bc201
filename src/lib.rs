pub mod calendar;
pub mod holiday_validator;
pub mod trnc_holiday_validator;
pub mod turkey_holiday_validator;
pub mod laws;
