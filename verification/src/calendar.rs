//! The proleptic Gregorian calendar and the 24-hour clock, as predicates on
//! mathematical integers, together with the `chrono` constructors that decide
//! them at run time.

use vstd::prelude::*;

verus! {

/// The earliest year a date can carry (262144 BCE).
pub const MIN_YEAR: i32 = -262143;

/// The latest year a date can carry.
pub const MAX_YEAR: i32 = 262142;

/// Leap years of the proleptic Gregorian calendar: every fourth year, except
/// the centuries that are not multiples of 400. Year 0 is 1 BCE.
pub open spec fn is_leap_year(year: int) -> bool {
    year % 4 == 0 && (year % 100 != 0 || year % 400 == 0)
}

/// Number of days of `month` (1 to 12) in `year`.
pub open spec fn days_in_month(year: int, month: int) -> int {
    if month == 2 {
        if is_leap_year(year) {
            29
        } else {
            28
        }
    } else if month == 4 || month == 6 || month == 9 || month == 11 {
        30
    } else {
        31
    }
}

/// `(year, month, day)` names a day that exists in the calendar and whose
/// year lies within the supported range.
pub open spec fn is_calendar_date(year: int, month: int, day: int) -> bool {
    &&& MIN_YEAR <= year <= MAX_YEAR
    &&& 1 <= month <= 12
    &&& 1 <= day <= days_in_month(year, month)
}

/// `(hour, minute, second)` names a second of the day, 00:00:00 to 23:59:59.
/// There is no slot for a leap second.
pub open spec fn is_time_of_day(hour: int, minute: int, second: int) -> bool {
    &&& 0 <= hour <= 23
    &&& 0 <= minute <= 59
    &&& 0 <= second <= 59
}

/// A date and a time of day as six mathematical integers: what a `DateTime`
/// denotes, and what the text patterns speak of.
pub struct Timestamp {
    pub year: int,
    pub month: int,
    pub day: int,
    pub hour: int,
    pub minute: int,
    pub second: int,
}

impl Timestamp {
    /// The six fields name a day of the calendar and a second of that day.
    pub open spec fn is_valid(self) -> bool {
        &&& is_calendar_date(self.year, self.month, self.day)
        &&& is_time_of_day(self.hour, self.minute, self.second)
    }

    /// The first second of the given day.
    pub open spec fn midnight(year: int, month: int, day: int) -> Timestamp {
        Timestamp { year, month, day, hour: 0, minute: 0, second: 0 }
    }
}

/// Trusted: `chrono::NaiveDate`, a date that `chrono` has accepted. Nothing
/// is known of a value but that it was made.
#[verifier::external_type_specification]
#[verifier::external_body]
pub struct ExNaiveDate(chrono::NaiveDate);

/// Trusted: `chrono::NaiveDateTime`, a date and time that `chrono` has
/// accepted. Nothing is known of a value but that it was made.
#[verifier::external_type_specification]
#[verifier::external_body]
pub struct ExNaiveDateTime(chrono::NaiveDateTime);

/// Trusted: `chrono::NaiveDate::from_ymd_opt` returns a date exactly when the
/// day exists in the proleptic Gregorian calendar and the year is between
/// `MIN_YEAR` and `MAX_YEAR`; it never panics.
pub assume_specification[ chrono::NaiveDate::from_ymd_opt ](
    year: i32,
    month: u32,
    day: u32,
) -> (date: Option<chrono::NaiveDate>)
    ensures
        date.is_some() <==> is_calendar_date(year as int, month as int, day as int),
;

/// Trusted: `chrono::NaiveDate::and_hms_opt` returns a date-time exactly when
/// `hour < 24`, `min < 60` and `sec < 60`, whatever the date; it never panics.
pub assume_specification[ chrono::NaiveDate::and_hms_opt ](
    date: &chrono::NaiveDate,
    hour: u32,
    min: u32,
    sec: u32,
) -> (datetime: Option<chrono::NaiveDateTime>)
    ensures
        datetime.is_some() <==> is_time_of_day(hour as int, min as int, sec as int),
;

} // verus!
