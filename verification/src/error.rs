//! The error that a failed construction returns.

use vstd::prelude::*;
use vstd::string::*;

verus! {

/// Why no timestamp could be made. The cause is told by `message`, which is
/// one of `invalid_date_message()`, `invalid_time_message()` and
/// `unrecognized_format_message()` when the error comes from this library.
#[derive(Debug)]
pub struct DateTimeError {
    pub message: String,
}

/// Message of the error for a day that is not in the calendar.
pub open spec fn invalid_date_message() -> Seq<char> {
    "Invalid month or day"@
}

/// Message of the error for a time that is not on the clock.
pub open spec fn invalid_time_message() -> Seq<char> {
    "Invalid hour, minute or second"@
}

/// Message of the error for a text that fits neither pattern.
pub open spec fn unrecognized_format_message() -> Seq<char> {
    "Failed to match any ISO pattern"@
}

/// What stands before the message when the error is shown.
pub open spec fn display_prefix() -> Seq<char> {
    "Datetime error: "@
}

impl DateTimeError {
    /// An error that carries `message`.
    pub fn new(message: &str) -> (error: Self)
        ensures
            error.message@ == message@,
    {
        DateTimeError { message: message.to_string() }
    }

    /// The text shown to a user: the prefix `"Datetime error: "`, then the
    /// message, unchanged.
    pub fn to_string(&self) -> (text: String)
        ensures
            text@ == display_prefix() + self.message@,
    {
        let mut text = "Datetime error: ".to_string();
        text.append(self.message.as_str());
        text
    }
}

} // verus!
