//! The two text patterns a timestamp is read from, `YYYY-MM-DD HH:MM:SS` and
//! `YYYY-MM-DD`: what a text of either pattern says, and scanners that find it
//! out.
//!
//! A pattern is matched by the whole text or not at all. Every field has its
//! full width in decimal digits, padded with zeros; the separators are single
//! characters.

use vstd::prelude::*;
use vstd::string::*;
use crate::calendar::Timestamp;

verus! {

/// Number of characters of a text of the pattern `YYYY-MM-DD`.
pub const DATE_WIDTH: usize = 10;

/// Number of characters of a text of the pattern `YYYY-MM-DD HH:MM:SS`.
pub const TIMESTAMP_WIDTH: usize = 19;

/// `c` is one of the decimal digits `0` to `9`.
pub open spec fn is_digit(c: char) -> bool {
    '0' <= c <= '9'
}

/// The number that the digit `c` stands for.
pub open spec fn digit_value(c: char) -> int {
    c as int - '0' as int
}

/// The digit that stands for `value`, for `value` from 0 to 9.
pub open spec fn digit_char(value: int) -> char {
    (value + '0' as int) as char
}

/// Two decimal digits stand at `at` and `at + 1`.
pub open spec fn two_digits_at(text: Seq<char>, at: int) -> bool {
    is_digit(text[at]) && is_digit(text[at + 1])
}

/// The number written by the two digits at `at`.
pub open spec fn two_digit_value(text: Seq<char>, at: int) -> int {
    10 * digit_value(text[at]) + digit_value(text[at + 1])
}

/// Four decimal digits stand at `at` to `at + 3`.
pub open spec fn four_digits_at(text: Seq<char>, at: int) -> bool {
    two_digits_at(text, at) && two_digits_at(text, at + 2)
}

/// The number written by the four digits at `at`.
pub open spec fn four_digit_value(text: Seq<char>, at: int) -> int {
    100 * two_digit_value(text, at) + two_digit_value(text, at + 2)
}

/// The first ten characters of `text` are laid out as `YYYY-MM-DD`.
pub open spec fn starts_with_date(text: Seq<char>) -> bool {
    &&& text.len() >= DATE_WIDTH
    &&& four_digits_at(text, 0)
    &&& text[4] == '-'
    &&& two_digits_at(text, 5)
    &&& text[7] == '-'
    &&& two_digits_at(text, 8)
}

/// The whole of `text` is laid out as `YYYY-MM-DD`.
pub open spec fn is_date_text(text: Seq<char>) -> bool {
    text.len() == DATE_WIDTH && starts_with_date(text)
}

/// The whole of `text` is laid out as `YYYY-MM-DD HH:MM:SS`.
pub open spec fn is_timestamp_text(text: Seq<char>) -> bool {
    &&& text.len() == TIMESTAMP_WIDTH
    &&& starts_with_date(text)
    &&& text[10] == ' '
    &&& two_digits_at(text, 11)
    &&& text[13] == ':'
    &&& two_digits_at(text, 14)
    &&& text[16] == ':'
    &&& two_digits_at(text, 17)
}

/// The fields written in a text of the pattern `YYYY-MM-DD`, at midnight.
/// They need not name a day that exists.
pub open spec fn date_fields(text: Seq<char>) -> Timestamp {
    Timestamp::midnight(
        four_digit_value(text, 0),
        two_digit_value(text, 5),
        two_digit_value(text, 8),
    )
}

/// The fields written in a text of the pattern `YYYY-MM-DD HH:MM:SS`. They
/// need not name a day that exists, nor a time on the clock.
pub open spec fn timestamp_fields(text: Seq<char>) -> Timestamp {
    Timestamp {
        year: four_digit_value(text, 0),
        month: two_digit_value(text, 5),
        day: two_digit_value(text, 8),
        hour: two_digit_value(text, 11),
        minute: two_digit_value(text, 14),
        second: two_digit_value(text, 17),
    }
}

/// What `text` says when read by the pattern `YYYY-MM-DD HH:MM:SS`: its
/// fields, if it has the layout and they name a second that exists.
pub open spec fn read_as_timestamp(text: Seq<char>) -> Option<Timestamp> {
    if is_timestamp_text(text) && timestamp_fields(text).is_valid() {
        Some(timestamp_fields(text))
    } else {
        None
    }
}

/// What `text` says when read by the pattern `YYYY-MM-DD`: midnight of the
/// day written, if it has the layout and the day exists.
pub open spec fn read_as_date(text: Seq<char>) -> Option<Timestamp> {
    if is_date_text(text) && date_fields(text).is_valid() {
        Some(date_fields(text))
    } else {
        None
    }
}

/// What `text` says: the full pattern is tried first, and the date pattern
/// only if the full one does not match.
pub open spec fn read(text: Seq<char>) -> Option<Timestamp> {
    if read_as_timestamp(text) is Some {
        read_as_timestamp(text)
    } else {
        read_as_date(text)
    }
}

/// `value`, from 0 to 99, written with two digits.
pub open spec fn two_digit_text(value: int) -> Seq<char> {
    seq![digit_char(value / 10), digit_char(value % 10)]
}

/// `value`, from 0 to 9999, written with four digits.
pub open spec fn four_digit_text(value: int) -> Seq<char> {
    two_digit_text(value / 100) + two_digit_text(value % 100)
}

/// The day of `t` written in the pattern `YYYY-MM-DD`.
pub open spec fn date_text(t: Timestamp) -> Seq<char> {
    four_digit_text(t.year) + seq!['-'] + two_digit_text(t.month) + seq!['-'] + two_digit_text(
        t.day,
    )
}

/// `t` written in the pattern `YYYY-MM-DD HH:MM:SS`.
pub open spec fn timestamp_text(t: Timestamp) -> Seq<char> {
    date_text(t) + seq![' '] + two_digit_text(t.hour) + seq![':'] + two_digit_text(t.minute)
        + seq![':'] + two_digit_text(t.second)
}

/// Two digits written for a number from 0 to 99 are digits, and say that
/// number, wherever in a text they stand.
proof fn lemma_two_digits_written(text: Seq<char>, at: int, value: int)
    requires
        0 <= value <= 99,
        0 <= at,
        at + 2 <= text.len(),
        text.subrange(at, at + 2) == two_digit_text(value),
    ensures
        two_digits_at(text, at),
        two_digit_value(text, at) == value,
{
    let written = text.subrange(at, at + 2);
    assert(written[0] == text[at]);
    assert(written[1] == text[at + 1]);
}

/// A valid timestamp whose year has at most four digits, written in the full
/// pattern, is read back as itself.
pub proof fn lemma_timestamp_text_reads_back(t: Timestamp)
    requires
        t.is_valid(),
        0 <= t.year <= 9999,
    ensures
        is_timestamp_text(timestamp_text(t)),
        read(timestamp_text(t)) == Some(t),
{
    let text = timestamp_text(t);
    assert(text.len() == 19);
    assert(text.subrange(0, 2) == two_digit_text(t.year / 100));
    assert(text.subrange(2, 4) == two_digit_text(t.year % 100));
    assert(text.subrange(5, 7) == two_digit_text(t.month));
    assert(text.subrange(8, 10) == two_digit_text(t.day));
    assert(text.subrange(11, 13) == two_digit_text(t.hour));
    assert(text.subrange(14, 16) == two_digit_text(t.minute));
    assert(text.subrange(17, 19) == two_digit_text(t.second));
    lemma_two_digits_written(text, 0, t.year / 100);
    lemma_two_digits_written(text, 2, t.year % 100);
    lemma_two_digits_written(text, 5, t.month);
    lemma_two_digits_written(text, 8, t.day);
    lemma_two_digits_written(text, 11, t.hour);
    lemma_two_digits_written(text, 14, t.minute);
    lemma_two_digits_written(text, 17, t.second);
    assert(text[4] == '-' && text[7] == '-' && text[10] == ' ' && text[13] == ':' && text[16]
        == ':');
    assert(timestamp_fields(text) == t);
}

/// The day of a valid timestamp whose year has at most four digits, written
/// in the date pattern, is read back as the midnight of that day.
pub proof fn lemma_date_text_reads_back(t: Timestamp)
    requires
        t.is_valid(),
        0 <= t.year <= 9999,
    ensures
        is_date_text(date_text(t)),
        read(date_text(t)) == Some(Timestamp::midnight(t.year, t.month, t.day)),
{
    let text = date_text(t);
    assert(text.len() == 10);
    assert(text.subrange(0, 2) == two_digit_text(t.year / 100));
    assert(text.subrange(2, 4) == two_digit_text(t.year % 100));
    assert(text.subrange(5, 7) == two_digit_text(t.month));
    assert(text.subrange(8, 10) == two_digit_text(t.day));
    lemma_two_digits_written(text, 0, t.year / 100);
    lemma_two_digits_written(text, 2, t.year % 100);
    lemma_two_digits_written(text, 5, t.month);
    lemma_two_digits_written(text, 8, t.day);
    assert(text[4] == '-' && text[7] == '-');
    assert(date_fields(text) == Timestamp::midnight(t.year, t.month, t.day));
}

/// A text of either layout holds ASCII characters only.
proof fn lemma_layout_is_ascii(text: Seq<char>)
    requires
        is_date_text(text) || is_timestamp_text(text),
    ensures
        vstd::utf8::is_ascii_chars(text),
{
    assert forall|i: int| 0 <= i < text.len() implies '\0' <= #[trigger] text[i] <= '\u{7f}' by {
        if i < 10 {
            assert(is_digit(text[i]) || text[i] == '-');
        } else {
            assert(is_digit(text[i]) || text[i] == ' ' || text[i] == ':');
        }
    }
}

/// The digit at `at`, if one stands there.
fn digit_at(text: &str, at: usize) -> (digit: Option<u32>)
    requires
        text.is_ascii(),
        at < text@.len(),
    ensures
        match digit {
            Some(value) => is_digit(text@[at as int]) && value == digit_value(text@[at as int]),
            None => !is_digit(text@[at as int]),
        },
{
    let byte: u8 = text.get_ascii(at);
    if '0' as u8 <= byte && byte <= '9' as u8 {
        Some((byte - '0' as u8) as u32)
    } else {
        None
    }
}

/// The number written by two digits at `at`, if two digits stand there.
fn two_digits(text: &str, at: usize) -> (number: Option<u32>)
    requires
        text.is_ascii(),
        at + 1 < text@.len(),
        at < usize::MAX,
    ensures
        match number {
            Some(value) => two_digits_at(text@, at as int) && value == two_digit_value(
                text@,
                at as int,
            ),
            None => !two_digits_at(text@, at as int),
        },
{
    match (digit_at(text, at), digit_at(text, at + 1)) {
        (Some(tens), Some(ones)) => Some(10 * tens + ones),
        _ => None,
    }
}

/// `expected` stands at `at`.
fn separator_at(text: &str, at: usize, expected: char) -> (found: bool)
    requires
        text.is_ascii(),
        at < text@.len(),
        expected <= '\u{7f}',
    ensures
        found == (text@[at as int] == expected),
{
    text.get_ascii(at) == expected as u8
}

/// The year, month and day written at the start of `text`, if its first ten
/// characters are laid out as `YYYY-MM-DD`.
fn scan_date_prefix(text: &str) -> (fields: Option<(i32, u32, u32)>)
    requires
        text.is_ascii(),
        text@.len() >= DATE_WIDTH,
    ensures
        match fields {
            Some((year, month, day)) => {
                &&& starts_with_date(text@)
                &&& year == four_digit_value(text@, 0)
                &&& month == two_digit_value(text@, 5)
                &&& day == two_digit_value(text@, 8)
            },
            None => !starts_with_date(text@),
        },
{
    if !separator_at(text, 4, '-') || !separator_at(text, 7, '-') {
        return None;
    }
    match (two_digits(text, 0), two_digits(text, 2), two_digits(text, 5), two_digits(text, 8)) {
        (Some(century), Some(years), Some(month), Some(day)) => Some(
            ((100 * century + years) as i32, month, day),
        ),
        _ => None,
    }
}

/// The fields written in `text`, if the whole of it is laid out as
/// `YYYY-MM-DD`. Nothing is asked of the fields but their layout.
pub fn scan_date(text: &str) -> (fields: Option<(i32, u32, u32)>)
    ensures
        match fields {
            Some((year, month, day)) => {
                &&& is_date_text(text@)
                &&& date_fields(text@) == Timestamp::midnight(
                    year as int,
                    month as int,
                    day as int,
                )
            },
            None => !is_date_text(text@),
        },
{
    if !text.is_ascii() {
        proof {
            if is_date_text(text@) {
                lemma_layout_is_ascii(text@);
            }
        }
        return None;
    }
    proof {
        is_ascii_spec_bytes(text);
    }
    if text.as_bytes().len() != DATE_WIDTH {
        return None;
    }
    scan_date_prefix(text)
}

/// The fields written in `text`, if the whole of it is laid out as
/// `YYYY-MM-DD HH:MM:SS`. Nothing is asked of the fields but their layout.
pub fn scan_timestamp(text: &str) -> (fields: Option<(i32, u32, u32, u32, u32, u32)>)
    ensures
        match fields {
            Some((year, month, day, hour, minute, second)) => {
                &&& is_timestamp_text(text@)
                &&& timestamp_fields(text@) == (Timestamp {
                    year: year as int,
                    month: month as int,
                    day: day as int,
                    hour: hour as int,
                    minute: minute as int,
                    second: second as int,
                })
            },
            None => !is_timestamp_text(text@),
        },
{
    if !text.is_ascii() {
        proof {
            if is_timestamp_text(text@) {
                lemma_layout_is_ascii(text@);
            }
        }
        return None;
    }
    proof {
        is_ascii_spec_bytes(text);
    }
    if text.as_bytes().len() != TIMESTAMP_WIDTH {
        return None;
    }
    if !separator_at(text, 10, ' ') || !separator_at(text, 13, ':') || !separator_at(
        text,
        16,
        ':',
    ) {
        return None;
    }
    match (scan_date_prefix(text), two_digits(text, 11), two_digits(text, 14), two_digits(text, 17)) {
        (Some((year, month, day)), Some(hour), Some(minute), Some(second)) => Some(
            (year, month, day, hour, minute, second),
        ),
        _ => None,
    }
}

} // verus!
