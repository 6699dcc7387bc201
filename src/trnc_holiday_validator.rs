use crate::calendar::CalendarDate;
use crate::holiday_validator::{
    anchor_span, anchors_wf, base_anchor_spans, base_lunar_anchors, is_listed_day, on_fixed_day,
    CustomHoliday, Holiday, HolidayValidator,
};
use vstd::prelude::*;

verus! {

/// Fixed holidays that the regional jurisdiction adds, as (month, day).
pub open spec fn trnc_fixed_days() -> Seq<(u32, u32)> {
    seq![(8, 1), (11, 15)]
}

/// Lunar holiday anchors that the regional jurisdiction adds.
pub open spec fn trnc_anchor_spans() -> Seq<(CalendarDate, u32)> {
    seq![(CalendarDate { year: 2024, month: 9, day: 15 }, 1u32)]
}

/// Fixed holidays that the regional jurisdiction adds, as (month, day).
pub fn trnc_fixed_holidays() -> (r: Vec<(u32, u32)>)
    ensures
        r@ == trnc_fixed_days(),
{
    let r = vec![(8, 1), (11, 15)];
    assert(r@ =~= trnc_fixed_days());
    r
}

/// Lunar holiday anchors that the regional jurisdiction adds.
pub fn trnc_lunar_anchors() -> (r: Vec<Holiday>)
    ensures
        r@.map_values(|h: Holiday| anchor_span(h)) == trnc_anchor_spans(),
{
    let r = vec![Holiday::new("mevlidKandili", CalendarDate { year: 2024, month: 9, day: 15 }, 1)];
    assert(r@.map_values(|h: Holiday| anchor_span(h)) =~= trnc_anchor_spans());
    r
}

/// Holiday engine of the regional jurisdiction: the base rules with the
/// base and regional lunar anchors, plus the regional fixed holidays.
pub struct TRNCHolidayValidator {
    base_validator: HolidayValidator,
}

impl TRNCHolidayValidator {
    /// The engine that applies the base rules.
    pub closed spec fn engine(&self) -> HolidayValidator {
        self.base_validator
    }

    pub open spec fn wf(&self) -> bool {
        self.engine().wf()
    }

    /// Whether this engine classifies `d` as a holiday.
    pub open spec fn holiday_at(&self, d: CalendarDate) -> bool {
        self.engine().holiday_at(d) || on_fixed_day(trnc_fixed_days(), d)
    }

    /// A regional engine with no custom holidays.
    pub fn new(include_saturday: bool) -> (r: TRNCHolidayValidator)
        ensures
            r.wf(),
            r.engine().saturday_off() == include_saturday,
            r.engine().anchors() == base_anchor_spans() + trnc_anchor_spans(),
            r.engine().customs() == Seq::<CustomHoliday>::empty(),
    {
        let mut anchors = base_lunar_anchors();
        let mut extra = trnc_lunar_anchors();
        let ghost a0 = anchors@;
        let ghost e0 = extra@;
        anchors.append(&mut extra);
        let ghost f = |h: Holiday| anchor_span(h);
        assert(anchors@ == a0 + e0);
        assert(anchors@.map_values(f) =~= a0.map_values(f) + e0.map_values(f));
        assert(anchors_wf(anchors@.map_values(f)));
        TRNCHolidayValidator {
            base_validator: HolidayValidator::with_anchors(include_saturday, anchors),
        }
    }

    /// Whether `date` is a holiday under the base rules, any lunar anchor
    /// or a regional fixed holiday.
    pub fn is_holiday(&self, date: CalendarDate) -> (r: bool)
        requires
            self.wf(),
            date.wf(),
        ensures
            r == self.holiday_at(date),
    {
        self.base_validator.is_holiday(date) || self.is_trnc_fixed_holiday(&date)
    }

    /// Registers a custom holiday with the underlying engine.
    pub fn add_custom_holiday(&mut self, date: CalendarDate, recurring: bool, is_islamic: bool)
        requires
            old(self).wf(),
            date.wf(),
        ensures
            final(self).wf(),
            final(self).engine().saturday_off() == old(self).engine().saturday_off(),
            final(self).engine().anchors() == old(self).engine().anchors(),
            final(self).engine().customs() == old(self).engine().customs().push(
                CustomHoliday { date, recurring, is_islamic },
            ),
    {
        self.base_validator.add_custom_holiday(date, recurring, is_islamic);
    }

    fn is_trnc_fixed_holiday(&self, date: &CalendarDate) -> (r: bool)
        ensures
            r == on_fixed_day(trnc_fixed_days(), *date),
    {
        is_listed_day(&trnc_fixed_holidays(), date)
    }
}

} // verus!
