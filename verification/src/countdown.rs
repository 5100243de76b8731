//! The days that are left until the next 31 October.

use crate::calendar::{
    days_in_year, lemma_days_before_each_month, lemma_year_length, ymd, Date, Ymd,
};
use vstd::prelude::*;

verus! {

/// The month of the day that is counted down to.
pub const TARGET_MONTH: u32 = 10;

/// The day of the month that is counted down to.
pub const TARGET_DAY: u32 = 31;

/// The target day of `year`.
pub open spec fn target_in(year: int) -> Ymd {
    ymd(year, TARGET_MONTH as int, TARGET_DAY as int)
}

/// The target day that `today` looks forward to: that of the same year until
/// it has passed, that of the next year from the day after it.
pub open spec fn target_of(today: Ymd) -> Ymd {
    if today.is_after(target_in(today.year)) {
        target_in(today.year + 1)
    } else {
        target_in(today.year)
    }
}

/// The number of days from `today` to its target day.
pub open spec fn days_until(today: Ymd) -> int {
    target_of(today).day_number() - today.day_number()
}

/// What the calendar says of the days left until the target day: there are
/// never fewer than none nor more than 365, none are left on the target day
/// and on no other, one is left on the day before it, and from the day after
/// it a full year less one day is left, the year counted with the
/// 29 February that may lie ahead.
pub proof fn lemma_days_until(today: Ymd)
    requires
        today.is_calendar_date(),
    ensures
        0 <= days_until(today) <= 365,
        days_until(today) == 0 <==> today == target_in(today.year),
        today.month == TARGET_MONTH && today.day == TARGET_DAY - 1 ==> days_until(today) == 1,
        today.month == TARGET_MONTH + 1 && today.day == 1 ==> days_until(today) == days_in_year(
            today.year + 1,
        ) - 1,
        target_of(today).is_calendar_date(),
        !today.is_after(target_of(today)),
{
    lemma_days_before_each_month(today.year);
    lemma_days_before_each_month(today.year + 1);
    lemma_year_length(today.year);
}

/// The year of the target day: the year of `today` up to and on the target
/// day, the year after it from then on.
pub proof fn lemma_target_year(today: Ymd)
    requires
        today.is_calendar_date(),
    ensures
        today.month < TARGET_MONTH || (today.month == TARGET_MONTH && today.day <= TARGET_DAY)
            ==> target_of(today).year == today.year,
        today.month > TARGET_MONTH ==> target_of(today).year == today.year + 1,
        target_of(today).month == TARGET_MONTH,
        target_of(today).day == TARGET_DAY,
{
}

/// The target day that `today` looks forward to, or `None` if it lies in a
/// year that no [`Date`] can hold.
pub fn next_target(today: Date) -> (target: Option<Date>)
    ensures
        target is Some <==> target_of(today@).in_range(),
        target matches Some(t) ==> t@ == target_of(today@),
        today@.month < TARGET_MONTH || (today@.month == TARGET_MONTH && today@.day <= TARGET_DAY)
            ==> target is Some && target->0@.year == today@.year,
        today@.month > TARGET_MONTH && target is Some ==> target->0@.year == today@.year + 1,
{
    proof {
        use_type_invariant(&today);
        lemma_target_year(today@);
    }
    let this_year = Date::new(today.year(), TARGET_MONTH, TARGET_DAY);
    match this_year {
        Some(candidate) => {
            if today.is_after(&candidate) {
                Date::new(today.year() + 1, TARGET_MONTH, TARGET_DAY)
            } else {
                Some(candidate)
            }
        },
        None => None,
    }
}

/// The number of days from `today` to the next target day; 0 on the target
/// day itself.
pub fn days_until_target(today: Date) -> (days: i64)
    requires
        target_of(today@).in_range(),
    ensures
        days == days_until(today@),
        0 <= days <= 365,
        days == 0 <==> today@.month == TARGET_MONTH && today@.day == TARGET_DAY,
        today@.month == TARGET_MONTH && today@.day == TARGET_DAY - 1 ==> days == 1,
        today@.month == TARGET_MONTH + 1 && today@.day == 1 ==> days == days_in_year(
            today@.year + 1,
        ) - 1,
{
    proof {
        use_type_invariant(&today);
        lemma_days_until(today@);
    }
    let target = next_target(today).unwrap();
    today.days_to(&target)
}

} // verus!
