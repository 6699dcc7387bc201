use crate::calendar::CalendarDate;
use crate::holiday_validator::{
    base_fixed_days, custom_matches, on_custom_holiday, on_fixed_day, on_lunar_holiday,
    CustomHoliday, HolidayValidator,
};
use crate::trnc_holiday_validator::TRNCHolidayValidator;
use crate::turkey_holiday_validator::TurkeyHolidayValidator;
use vstd::prelude::*;

verus! {

/// Every Sunday is a holiday, whatever else an engine holds.
pub proof fn sunday_is_holiday(v: HolidayValidator, d: CalendarDate)
    requires
        d.iso_weekday() == 7,
    ensures
        v.holiday_at(d),
{
}

/// Every Sunday is a holiday under the regional engine too.
pub proof fn sunday_is_regional_holiday(v: TRNCHolidayValidator, d: CalendarDate)
    requires
        d.iso_weekday() == 7,
    ensures
        v.holiday_at(d),
{
}

/// A Saturday is a holiday exactly when Saturdays are off or another rule
/// than the weekend rule makes it one.
pub proof fn saturday_is_holiday_iff_off(v: HolidayValidator, d: CalendarDate)
    requires
        d.iso_weekday() == 6,
    ensures
        v.holiday_at(d) == (v.saturday_off() || on_fixed_day(base_fixed_days(), d)
            || on_lunar_holiday(v.anchors(), d) || on_custom_holiday(
            v.customs(),
            v.anchors(),
            d,
        )),
{
}

/// April 23 is a holiday of the base jurisdiction in every year.
pub proof fn april_23_is_holiday(v: HolidayValidator, d: CalendarDate)
    requires
        d.month == 4,
        d.day == 23,
    ensures
        v.holiday_at(d),
{
    assert(base_fixed_days()[1] == (d.month, d.day));
}

/// April 23 is a holiday of the base jurisdiction's engine in every year.
pub proof fn april_23_is_turkey_holiday(v: TurkeyHolidayValidator, d: CalendarDate)
    requires
        d.month == 4,
        d.day == 23,
    ensures
        v.holiday_at(d),
{
    april_23_is_holiday(v.engine(), d);
}

/// Registering the same custom holiday a second time changes no answer.
pub proof fn repeated_custom_holiday_changes_nothing(
    once: HolidayValidator,
    twice: HolidayValidator,
    c: CustomHoliday,
)
    requires
        twice.saturday_off() == once.saturday_off(),
        twice.anchors() == once.anchors(),
        twice.customs() == once.customs().push(c),
        once.customs().len() > 0,
        once.customs().last() == c,
    ensures
        forall|d: CalendarDate| #[trigger] twice.holiday_at(d) == once.holiday_at(d),
{
    assert forall|d: CalendarDate| #[trigger] twice.holiday_at(d) == once.holiday_at(d) by {
        let n = once.customs().len() as int;
        if on_custom_holiday(twice.customs(), twice.anchors(), d) {
            let i = choose|i: int|
                0 <= i < twice.customs().len() && custom_matches(
                    #[trigger] twice.customs()[i],
                    twice.anchors(),
                    d,
                );
            if i == n {
                assert(once.customs()[n - 1] == c);
            } else {
                assert(once.customs()[i] == twice.customs()[i]);
            }
        }
        if on_custom_holiday(once.customs(), once.anchors(), d) {
            let i = choose|i: int|
                0 <= i < once.customs().len() && custom_matches(
                    #[trigger] once.customs()[i],
                    once.anchors(),
                    d,
                );
            assert(twice.customs()[i] == once.customs()[i]);
        }
    }
}

/// A recurring custom holiday makes its month and day a holiday in every
/// year, earlier years included.
pub proof fn recurring_custom_holiday_every_year(
    v: HolidayValidator,
    c: CustomHoliday,
    d: CalendarDate,
)
    requires
        v.customs().contains(c),
        c.recurring,
        d.month == c.date.month,
        d.day == c.date.day,
    ensures
        v.holiday_at(d),
{
    let i = choose|i: int| 0 <= i < v.customs().len() && v.customs()[i] == c;
    assert(custom_matches(v.customs()[i], v.anchors(), d));
}

/// A custom holiday that neither recurs nor is lunar-linked matches its
/// own date and no other.
pub proof fn single_custom_holiday_exact_date(
    anchors: Seq<(CalendarDate, u32)>,
    c: CustomHoliday,
    d: CalendarDate,
)
    requires
        !c.recurring,
        !c.is_islamic,
    ensures
        on_custom_holiday(seq![c], anchors, d) == (d == c.date),
{
    if d == c.date {
        assert(custom_matches(seq![c][0], anchors, d));
    }
}

} // verus!
