//! The statistics screen's period selector.

use vstd::prelude::*;

verus! {

/// The span of history the statistics screen shows.
#[derive(Debug, Clone, Copy, PartialEq, Eq, Structural)]
pub enum StatsPeriod {
    OneHour,
    TwentyFourHours,
    SevenDays,
    ThirtyDays,
}

/// The position of a period in the selector, shortest first.
pub open spec fn spec_period_index(period: StatsPeriod) -> int {
    match period {
        StatsPeriod::OneHour => 0,
        StatsPeriod::TwentyFourHours => 1,
        StatsPeriod::SevenDays => 2,
        StatsPeriod::ThirtyDays => 3,
    }
}

/// The position of `period` in the selector; see [`spec_period_index`].
pub fn period_index(period: StatsPeriod) -> (r: usize)
    ensures
        r == spec_period_index(period),
{
    match period {
        StatsPeriod::OneHour => 0,
        StatsPeriod::TwentyFourHours => 1,
        StatsPeriod::SevenDays => 2,
        StatsPeriod::ThirtyDays => 3,
    }
}

} // verus!
