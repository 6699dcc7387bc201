use crate::calendar::CalendarDate;
use crate::holiday_validator::{base_anchor_spans, CustomHoliday, HolidayValidator};
use vstd::prelude::*;

verus! {

/// Holiday engine of the base jurisdiction.
pub struct TurkeyHolidayValidator {
    base_validator: HolidayValidator,
}

impl TurkeyHolidayValidator {
    /// The engine that applies the base rules.
    pub closed spec fn engine(&self) -> HolidayValidator {
        self.base_validator
    }

    pub open spec fn wf(&self) -> bool {
        self.engine().wf()
    }

    /// Whether this engine classifies `d` as a holiday.
    pub open spec fn holiday_at(&self, d: CalendarDate) -> bool {
        self.engine().holiday_at(d)
    }

    /// A base-jurisdiction engine with no custom holidays.
    pub fn new(include_saturday: bool) -> (r: TurkeyHolidayValidator)
        ensures
            r.wf(),
            r.engine().saturday_off() == include_saturday,
            r.engine().anchors() == base_anchor_spans(),
            r.engine().customs() == Seq::<CustomHoliday>::empty(),
    {
        TurkeyHolidayValidator { base_validator: HolidayValidator::new(include_saturday) }
    }

    /// Whether `date` is a holiday under the base rules.
    pub fn is_holiday(&self, date: CalendarDate) -> (r: bool)
        requires
            self.wf(),
            date.wf(),
        ensures
            r == self.holiday_at(date),
    {
        self.base_validator.is_holiday(date)
    }

    /// Registers a custom holiday with the underlying engine.
    pub fn add_custom_holiday(&mut self, date: CalendarDate, recurring: bool, is_islamic: bool)
        requires
            old(self).wf(),
            date.wf(),
        ensures
            final(self).wf(),
            final(self).engine().saturday_off() == old(self).engine().saturday_off(),
            final(self).engine().anchors() == old(self).engine().anchors(),
            final(self).engine().customs() == old(self).engine().customs().push(
                CustomHoliday { date, recurring, is_islamic },
            ),
    {
        self.base_validator.add_custom_holiday(date, recurring, is_islamic);
    }
}

} // verus!
