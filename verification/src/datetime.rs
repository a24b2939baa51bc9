//! The timestamp type and its two constructors.

use vstd::prelude::*;
use crate::calendar::{is_calendar_date, is_time_of_day, Timestamp};
use crate::error::{
    invalid_date_message, invalid_time_message, unrecognized_format_message, DateTimeError,
};
use crate::pattern::{read, scan_date, scan_timestamp};

verus! {

/// A calendar date with a time of day, without time zone, to the second.
///
/// Every value denotes a day that exists and a second of that day: the fields
/// are private, the constructors check them, and nothing changes them later.
#[derive(Clone, Copy, Debug, PartialEq, Eq)]
pub struct DateTime {
    year: i32,
    month: u32,
    day: u32,
    hour: u32,
    minute: u32,
    second: u32,
}

impl View for DateTime {
    type V = Timestamp;

    closed spec fn view(&self) -> Timestamp {
        Timestamp {
            year: self.year as int,
            month: self.month as int,
            day: self.day as int,
            hour: self.hour as int,
            minute: self.minute as int,
            second: self.second as int,
        }
    }
}

impl DateTime {
    #[verifier::type_invariant]
    spec fn denotes_a_second(self) -> bool {
        self@.is_valid()
    }

    /// The timestamp with the given fields.
    ///
    /// The date is judged first: a day that does not exist is reported as
    /// such whatever the time is. Only for a day that exists is the time
    /// judged.
    pub fn new(
        year: i32,
        month: u32,
        day: u32,
        hour: u32,
        minute: u32,
        second: u32,
    ) -> (made: Result<DateTime, DateTimeError>)
        ensures
            match made {
                Ok(datetime) => {
                    &&& is_calendar_date(year as int, month as int, day as int)
                    &&& is_time_of_day(hour as int, minute as int, second as int)
                    &&& datetime@ == (Timestamp {
                        year: year as int,
                        month: month as int,
                        day: day as int,
                        hour: hour as int,
                        minute: minute as int,
                        second: second as int,
                    })
                },
                Err(error) => if is_calendar_date(year as int, month as int, day as int) {
                    &&& !is_time_of_day(hour as int, minute as int, second as int)
                    &&& error.message@ == invalid_time_message()
                } else {
                    error.message@ == invalid_date_message()
                },
            },
    {
        match chrono::NaiveDate::from_ymd_opt(year, month, day) {
            None => Err(DateTimeError::new("Invalid month or day")),
            Some(date) => match date.and_hms_opt(hour, minute, second) {
                None => Err(DateTimeError::new("Invalid hour, minute or second")),
                Some(_) => Ok(DateTime { year, month, day, hour, minute, second }),
            },
        }
    }

    /// The timestamp that `date` says.
    ///
    /// A text of the pattern `YYYY-MM-DD HH:MM:SS` says the second written in
    /// it, a text of the pattern `YYYY-MM-DD` the midnight of the day written
    /// in it, provided that second or day exists. Any other text is not
    /// recognized.
    pub fn from_string(date: &str) -> (made: Result<DateTime, DateTimeError>)
        ensures
            match made {
                Ok(datetime) => read(date@) == Some(datetime@),
                Err(error) => {
                    &&& read(date@) is None
                    &&& error.message@ == unrecognized_format_message()
                },
            },
    {
        match scan_timestamp(date) {
            Some((year, month, day, hour, minute, second)) => {
                match DateTime::new(year, month, day, hour, minute, second) {
                    Ok(datetime) => {
                        return Ok(datetime);
                    },
                    Err(_) => {},
                }
            },
            None => {},
        }
        match scan_date(date) {
            Some((year, month, day)) => {
                match DateTime::new(year, month, day, 0, 0, 0) {
                    Ok(datetime) => {
                        return Ok(datetime);
                    },
                    Err(_) => {},
                }
            },
            None => {},
        }
        Err(DateTimeError::new("Failed to match any ISO pattern"))
    }

    /// The year, with 0 for 1 BCE.
    pub fn year(&self) -> (year: i32)
        ensures
            year == self@.year,
            self@.is_valid(),
    {
        proof {
            use_type_invariant(self);
        }
        self.year
    }

    /// The month of the year, 1 to 12.
    pub fn month(&self) -> (month: u32)
        ensures
            month == self@.month,
            self@.is_valid(),
    {
        proof {
            use_type_invariant(self);
        }
        self.month
    }

    /// The day of the month, from 1.
    pub fn day(&self) -> (day: u32)
        ensures
            day == self@.day,
            self@.is_valid(),
    {
        proof {
            use_type_invariant(self);
        }
        self.day
    }

    /// The hour of the day, 0 to 23.
    pub fn hour(&self) -> (hour: u32)
        ensures
            hour == self@.hour,
            self@.is_valid(),
    {
        proof {
            use_type_invariant(self);
        }
        self.hour
    }

    /// The minute of the hour, 0 to 59.
    pub fn minute(&self) -> (minute: u32)
        ensures
            minute == self@.minute,
            self@.is_valid(),
    {
        proof {
            use_type_invariant(self);
        }
        self.minute
    }

    /// The second of the minute, 0 to 59.
    pub fn second(&self) -> (second: u32)
        ensures
            second == self@.second,
            self@.is_valid(),
    {
        proof {
            use_type_invariant(self);
        }
        self.second
    }
}

} // verus!
