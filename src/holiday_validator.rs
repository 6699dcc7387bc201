use crate::calendar::{CalendarDate, MAX_YEAR, MIN_YEAR};
use vstd::prelude::*;

verus! {

/// Year in which the lunar holiday anchors were observed.
pub const BASE_YEAR: i32 = 2024;

/// Length of the mean lunar year, in hundred-thousandths of a day
/// (354.36667 days).
pub const LUNAR_YEAR_SCALED: i64 = 35436667;

/// Scale of `LUNAR_YEAR_SCALED`.
pub const LUNAR_YEAR_SCALE: i64 = 100000;

/// A known occurrence of a lunar holiday: the date it began on in
/// `BASE_YEAR` and how many consecutive days it lasts.
#[derive(Clone, Copy, Debug)]
pub struct Holiday {
    pub name: &'static str,
    pub date: CalendarDate,
    pub days: u32,
}

impl Holiday {
    /// Creates a new holiday anchor.
    pub fn new(name: &'static str, date: CalendarDate, days: u32) -> (r: Holiday)
        ensures
            r.name == name,
            r.date == date,
            r.days == days,
    {
        Holiday { name, date, days }
    }
}

/// A holiday registered by the caller at run time.
#[derive(Clone, Copy, Debug, PartialEq, Eq, Structural)]
pub struct CustomHoliday {
    pub date: CalendarDate,
    pub recurring: bool,
    pub is_islamic: bool,
}

/// Start date and length in days of a lunar holiday anchor.
pub open spec fn anchor_span(h: Holiday) -> (CalendarDate, u32) {
    (h.date, h.days)
}

/// Fixed holidays of the base jurisdiction, as (month, day).
pub open spec fn base_fixed_days() -> Seq<(u32, u32)> {
    seq![(1, 1), (4, 23), (5, 1), (5, 19), (7, 20), (8, 30), (10, 29)]
}

/// Lunar holiday anchors of the base jurisdiction.
pub open spec fn base_anchor_spans() -> Seq<(CalendarDate, u32)> {
    seq![
        (CalendarDate { year: 2024, month: 4, day: 10 }, 3u32),
        (CalendarDate { year: 2024, month: 6, day: 28 }, 4u32),
    ]
}

pub open spec fn anchors_wf(anchors: Seq<(CalendarDate, u32)>) -> bool {
    forall|i: int| 0 <= i < anchors.len() ==> #[trigger] anchors[i].0.wf()
}

pub open spec fn customs_wf(customs: Seq<CustomHoliday>) -> bool {
    forall|i: int| 0 <= i < customs.len() ==> #[trigger] customs[i].date.wf()
}

/// Sunday always, Saturday when the flag asks for it.
pub open spec fn on_weekend(include_saturday: bool, d: CalendarDate) -> bool {
    d.iso_weekday() == 7 || (include_saturday && d.iso_weekday() == 6)
}

/// The date's (month, day) is listed in `table`, whatever the year.
pub open spec fn on_fixed_day(table: Seq<(u32, u32)>, d: CalendarDate) -> bool {
    exists|i: int| 0 <= i < table.len() && #[trigger] table[i] == (d.month, d.day)
}

/// `round(year_difference * 354.36667)`, halves rounded away from zero.
pub open spec fn lunar_offset(year_difference: int) -> int {
    if year_difference >= 0 {
        (year_difference * LUNAR_YEAR_SCALED as int + LUNAR_YEAR_SCALE as int / 2)
            / LUNAR_YEAR_SCALE as int
    } else {
        -((-year_difference * LUNAR_YEAR_SCALED as int + LUNAR_YEAR_SCALE as int / 2)
            / LUNAR_YEAR_SCALE as int)
    }
}

/// The anchor projected to `d`'s own year covers `d`: the projected start
/// is the anchor date moved by `lunar_offset` days, and the holiday lasts
/// the anchor's number of days.
pub open spec fn in_lunar_span(anchor: (CalendarDate, u32), d: CalendarDate) -> bool {
    let k = d.ordinal() - anchor.0.ordinal() - lunar_offset(d.year - BASE_YEAR as int);
    0 <= k < anchor.1
}

pub open spec fn on_lunar_holiday(anchors: Seq<(CalendarDate, u32)>, d: CalendarDate) -> bool {
    exists|i: int| 0 <= i < anchors.len() && in_lunar_span(#[trigger] anchors[i], d)
}

/// A recurring custom holiday matches its (month, day) in every year, a
/// single one only its own date; a lunar-linked one also matches any date
/// when its own date is a lunar holiday.
pub open spec fn custom_matches(
    c: CustomHoliday,
    anchors: Seq<(CalendarDate, u32)>,
    d: CalendarDate,
) -> bool {
    (if c.recurring {
        c.date.month == d.month && c.date.day == d.day
    } else {
        c.date == d
    }) || (c.is_islamic && on_lunar_holiday(anchors, c.date))
}

pub open spec fn on_custom_holiday(
    customs: Seq<CustomHoliday>,
    anchors: Seq<(CalendarDate, u32)>,
    d: CalendarDate,
) -> bool {
    exists|i: int| 0 <= i < customs.len() && custom_matches(#[trigger] customs[i], anchors, d)
}

/// The holiday decision of an engine with the given configuration, lunar
/// anchors and custom holidays.
pub open spec fn holiday_rule(
    include_saturday: bool,
    anchors: Seq<(CalendarDate, u32)>,
    customs: Seq<CustomHoliday>,
    d: CalendarDate,
) -> bool {
    ||| on_weekend(include_saturday, d)
    ||| on_fixed_day(base_fixed_days(), d)
    ||| on_lunar_holiday(anchors, d)
    ||| on_custom_holiday(customs, anchors, d)
}

/// Every valid date's day number lies well inside `i64`.
pub proof fn lemma_ordinal_bounds(d: CalendarDate)
    requires
        d.wf(),
    ensures
        -100_000_000 < d.ordinal() < 100_000_000,
{
}

/// The day offset of the lunar holidays `year_difference` years after
/// `BASE_YEAR`.
pub fn lunar_day_offset(year_difference: i64) -> (r: i64)
    requires
        -1_000_000 <= year_difference <= 1_000_000,
    ensures
        r == lunar_offset(year_difference as int),
{
    if year_difference >= 0 {
        assert(year_difference * LUNAR_YEAR_SCALED <= 1_000_000 * LUNAR_YEAR_SCALED)
            by (nonlinear_arith)
            requires
                0 <= year_difference <= 1_000_000,
        ;
        assert(year_difference * LUNAR_YEAR_SCALED >= 0) by (nonlinear_arith)
            requires
                0 <= year_difference,
        ;
        (year_difference * LUNAR_YEAR_SCALED + LUNAR_YEAR_SCALE / 2) / LUNAR_YEAR_SCALE
    } else {
        let n: i64 = -year_difference;
        assert(n * LUNAR_YEAR_SCALED <= 1_000_000 * LUNAR_YEAR_SCALED) by (nonlinear_arith)
            requires
                0 <= n <= 1_000_000,
        ;
        assert(n * LUNAR_YEAR_SCALED >= 0) by (nonlinear_arith)
            requires
                0 <= n,
        ;
        -((n * LUNAR_YEAR_SCALED + LUNAR_YEAR_SCALE / 2) / LUNAR_YEAR_SCALE)
    }
}


/// Fixed holidays of the base jurisdiction, as (month, day).
pub fn base_fixed_holidays() -> (r: Vec<(u32, u32)>)
    ensures
        r@ == base_fixed_days(),
{
    let r = vec![(1, 1), (4, 23), (5, 1), (5, 19), (7, 20), (8, 30), (10, 29)];
    assert(r@ =~= base_fixed_days());
    r
}

/// Lunar holiday anchors of the base jurisdiction.
pub fn base_lunar_anchors() -> (r: Vec<Holiday>)
    ensures
        r@.map_values(|h: Holiday| anchor_span(h)) == base_anchor_spans(),
{
    let r = vec![
        Holiday::new("ramazanBayrami", CalendarDate { year: 2024, month: 4, day: 10 }, 3),
        Holiday::new("kurbanBayrami", CalendarDate { year: 2024, month: 6, day: 28 }, 4),
    ];
    assert(r@.map_values(|h: Holiday| anchor_span(h)) =~= base_anchor_spans());
    r
}

/// Whether the (month, day) of `date` is listed in `table`.
pub fn is_listed_day(table: &Vec<(u32, u32)>, date: &CalendarDate) -> (r: bool)
    ensures
        r == on_fixed_day(table@, *date),
{
    let mut i: usize = 0;
    while i < table.len()
        invariant
            0 <= i <= table@.len(),
            forall|j: int| 0 <= j < i ==> #[trigger] table@[j] != (date.month, date.day),
        decreases table@.len() - i,
    {
        let (m, d) = table[i];
        if m == date.month && d == date.day {
            assert(table@[i as int] == (date.month, date.day));
            return true;
        }
        i += 1;
    }
    false
}

/// Holiday rule engine: weekends, fixed holidays, lunar holidays projected
/// from their anchors, and custom holidays registered at run time.
pub struct HolidayValidator {
    include_saturday: bool,
    custom_holidays: Vec<CustomHoliday>,
    lunar_anchors: Vec<Holiday>,
}

impl HolidayValidator {
    /// Whether Saturday counts as weekend.
    pub closed spec fn saturday_off(&self) -> bool {
        self.include_saturday
    }

    /// The custom holidays, in order of registration.
    pub closed spec fn customs(&self) -> Seq<CustomHoliday> {
        self.custom_holidays@
    }

    /// The lunar anchors that this engine projects.
    pub closed spec fn anchors(&self) -> Seq<(CalendarDate, u32)> {
        self.lunar_anchors@.map_values(|h: Holiday| anchor_span(h))
    }

    pub open spec fn wf(&self) -> bool {
        anchors_wf(self.anchors()) && customs_wf(self.customs())
    }

    /// Whether this engine classifies `d` as a holiday.
    pub open spec fn holiday_at(&self, d: CalendarDate) -> bool {
        holiday_rule(self.saturday_off(), self.anchors(), self.customs(), d)
    }

    /// An engine for the base jurisdiction with no custom holidays.
    pub fn new(include_saturday: bool) -> (r: HolidayValidator)
        ensures
            r.wf(),
            r.saturday_off() == include_saturday,
            r.anchors() == base_anchor_spans(),
            r.customs() == Seq::<CustomHoliday>::empty(),
    {
        HolidayValidator::with_anchors(include_saturday, base_lunar_anchors())
    }

    /// An engine that projects the given lunar anchors, with no custom
    /// holidays.
    pub fn with_anchors(include_saturday: bool, lunar_anchors: Vec<Holiday>) -> (r:
        HolidayValidator)
        requires
            anchors_wf(lunar_anchors@.map_values(|h: Holiday| anchor_span(h))),
        ensures
            r.wf(),
            r.saturday_off() == include_saturday,
            r.anchors() == lunar_anchors@.map_values(|h: Holiday| anchor_span(h)),
            r.customs() == Seq::<CustomHoliday>::empty(),
    {
        HolidayValidator { include_saturday, custom_holidays: Vec::new(), lunar_anchors }
    }

    /// Whether `date` is a holiday under any of the rules.
    pub fn is_holiday(&self, date: CalendarDate) -> (r: bool)
        requires
            self.wf(),
            date.wf(),
        ensures
            r == self.holiday_at(date),
    {
        self.is_weekend(&date) || self.is_fixed_holiday(&date) || self.is_islamic_holiday(&date)
            || self.is_custom_holiday(&date)
    }

    /// Registers a custom holiday; duplicates are kept.
    pub fn add_custom_holiday(&mut self, date: CalendarDate, recurring: bool, is_islamic: bool)
        requires
            old(self).wf(),
            date.wf(),
        ensures
            final(self).wf(),
            final(self).saturday_off() == old(self).saturday_off(),
            final(self).anchors() == old(self).anchors(),
            final(self).customs() == old(self).customs().push(
                CustomHoliday { date, recurring, is_islamic },
            ),
    {
        self.custom_holidays.push(CustomHoliday { date, recurring, is_islamic });
    }

    fn is_weekend(&self, date: &CalendarDate) -> (r: bool)
        requires
            date.wf(),
        ensures
            r == on_weekend(self.saturday_off(), *date),
    {
        let day_of_week = date.weekday_number();
        day_of_week == 7 || (self.include_saturday && day_of_week == 6)
    }

    fn is_fixed_holiday(&self, date: &CalendarDate) -> (r: bool)
        ensures
            r == on_fixed_day(base_fixed_days(), *date),
    {
        is_listed_day(&base_fixed_holidays(), date)
    }

    /// Whether `date` falls in the projection, to its own year, of one of
    /// the anchors.
    fn is_islamic_holiday(&self, date: &CalendarDate) -> (r: bool)
        requires
            self.wf(),
            date.wf(),
        ensures
            r == on_lunar_holiday(self.anchors(), *date),
    {
        let year_difference = date.year as i64 - BASE_YEAR as i64;
        let offset = lunar_day_offset(year_difference);
        let ghost anchors = self.anchors();
        proof {
            lemma_ordinal_bounds(*date);
        }
        let mut i: usize = 0;
        while i < self.lunar_anchors.len()
            invariant
                self.wf(),
                date.wf(),
                anchors == self.anchors(),
                anchors.len() == self.lunar_anchors@.len(),
                offset == lunar_offset(date.year - BASE_YEAR as int),
                -100_000_000 < date.ordinal() < 100_000_000,
                0 <= i <= anchors.len(),
                forall|j: int| 0 <= j < i ==> !in_lunar_span(#[trigger] anchors[j], *date),
            decreases anchors.len() - i,
        {
            let anchor = &self.lunar_anchors[i];
            assert(anchors[i as int] == anchor_span(*anchor));
            assert(anchors[i as int].0.wf());
            proof {
                lemma_ordinal_bounds(anchor.date);
            }
            let k = date.days_since(&anchor.date) - offset;
            if 0 <= k && k < anchor.days as i64 {
                assert(in_lunar_span(anchors[i as int], *date));
                return true;
            }
            i += 1;
        }
        false
    }

    fn is_custom_holiday(&self, date: &CalendarDate) -> (r: bool)
        requires
            self.wf(),
            date.wf(),
        ensures
            r == on_custom_holiday(self.customs(), self.anchors(), *date),
    {
        let ghost customs = self.customs();
        let mut i: usize = 0;
        while i < self.custom_holidays.len()
            invariant
                self.wf(),
                date.wf(),
                customs == self.customs(),
                0 <= i <= customs.len(),
                forall|j: int|
                    0 <= j < i ==> !custom_matches(#[trigger] customs[j], self.anchors(), *date),
            decreases customs.len() - i,
        {
            let holiday = &self.custom_holidays[i];
            assert(customs[i as int] == *holiday);
            if holiday.recurring {
                if date.month == holiday.date.month && date.day == holiday.date.day {
                    return true;
                }
            } else if *date == holiday.date {
                return true;
            }
            if holiday.is_islamic && self.is_islamic_holiday(&holiday.date) {
                return true;
            }
            i += 1;
        }
        false
    }
}

} // verus!
