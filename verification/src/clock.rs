//! The moment of a download, as the text that names its backup folder.

use vstd::prelude::*;

verus! {

/// A decimal digit.
pub open spec fn is_digit(c: char) -> bool {
    '0' <= c && c <= '9'
}

/// Every character of `text` is a decimal digit.
pub open spec fn all_digits(text: Seq<char>) -> bool {
    forall|i: int| 0 <= i < text.len() ==> is_digit(#[trigger] text[i])
}

/// The number that the two digits at `at` and behind it write.
pub open spec fn two_digits(text: Seq<char>, at: int) -> int {
    10 * (text[at] as int - '0' as int) + (text[at + 1] as int - '0' as int)
}

/// The text of a year: four digits, or a sign and four digits or more for a year
/// that four digits cannot hold.
pub open spec fn is_year_text(year: Seq<char>) -> bool {
    ||| year.len() == 4 && all_digits(year)
    ||| year.len() >= 5 && (year[0] == '+' || year[0] == '-') && all_digits(year.skip(1))
}

/// `text` is a timestamp: a year, then two digits each for month and day, `_`, and
/// two digits each for hour, minute and second, every field within the limits of
/// the calendar and the clock. A second may read 60, as a leap second does.
pub open spec fn is_timestamp_text(text: Seq<char>) -> bool {
    let n = text.len() as int;
    &&& n >= 15
    &&& is_year_text(text.take(n - 11))
    &&& all_digits(text.subrange(n - 11, n - 7))
    &&& text[n - 7] == '_'
    &&& all_digits(text.skip(n - 6))
    &&& 1 <= two_digits(text, n - 11) <= 12
    &&& 1 <= two_digits(text, n - 9) <= 31
    &&& two_digits(text, n - 6) <= 23
    &&& two_digits(text, n - 4) <= 59
    &&& two_digits(text, n - 2) <= 60
}

/// The characters that a timestamp is made of: digits, `_`, and the sign of a year
/// that four digits cannot hold.
pub open spec fn is_timestamp_char(c: char) -> bool {
    is_digit(c) || c == '_' || c == '+' || c == '-'
}

/// The pattern of a timestamp: year, month, day, `_`, hour, minute, second.
pub const TIMESTAMP_PATTERN: &'static str = "%Y%m%d_%H%M%S";

/// The local time of this moment, written after `pattern`.
///
/// Calls `chrono::Local::now` and formats what it gives with `DateTime::format`.
/// Which moment comes back is not stated. What is taken on trust is what the
/// formatter writes for the six fields of the one pattern that is let in, whatever
/// the moment, as the table of its specifiers tells it: the year padded with zeros
/// to four digits, with a `+` or `-` before it where it lies outside 0 to 9999; the
/// month from 01 to 12, the day from 01 to 31, the hour from 00 to 23, the minute
/// from 00 to 59 and the second from 00 to 60, each padded with zeros to two
/// digits; and the `_` of the pattern between day and hour.
///
/// The call does not return on a machine whose clock stands before 1970 or beyond
/// the years that `chrono` can hold, or whose time zone data gives no offset. No
/// argument decides that, so no `requires` can leave it out.
#[verifier::external_body]
fn local_time_text(pattern: &str) -> (text: String)
    requires
        pattern@ == TIMESTAMP_PATTERN@,
    ensures
        is_timestamp_text(text@),
{
    chrono::Local::now().format(pattern).to_string()
}

/// The local time of this moment in the form `YYYYMMDD_HHMMSS`.
pub fn local_timestamp() -> (text: String)
    ensures
        is_timestamp_text(text@),
{
    local_time_text(TIMESTAMP_PATTERN)
}

/// A timestamp is made of digits, `_` and the sign of its year, and of nothing else.
pub proof fn lemma_timestamp_chars(text: Seq<char>)
    requires
        is_timestamp_text(text),
    ensures
        forall|i: int| 0 <= i < text.len() ==> is_timestamp_char(#[trigger] text[i]),
{
    let n = text.len() as int;
    let year = text.take(n - 11);
    let date = text.subrange(n - 11, n - 7);
    let time = text.skip(n - 6);
    assert forall|i: int| 0 <= i < text.len() implies is_timestamp_char(#[trigger] text[i]) by {
        if i < n - 11 {
            assert(text[i] == year[i]);
            if i > 0 && year.len() >= 5 {
                assert(year[i] == year.skip(1)[i - 1]);
            }
        } else if i < n - 7 {
            assert(text[i] == date[i - (n - 11)]);
        } else if i > n - 7 {
            assert(text[i] == time[i - (n - 6)]);
        }
    }
}

/// A timestamp holds no path separator.
pub proof fn lemma_timestamp_has_no_separator(text: Seq<char>)
    requires
        is_timestamp_text(text),
    ensures
        !text.contains('/'),
{
    lemma_timestamp_chars(text);
    if text.contains('/') {
        let i = choose|i: int| 0 <= i < text.len() && text[i] == '/';
        assert(is_timestamp_char(text[i]));
    }
}

/// There are timestamps: the last second of January 2024 is written as one.
pub proof fn lemma_timestamp_example()
    ensures
        is_timestamp_text("20240131_235959"@),
{
    reveal_strlit("20240131_235959");
    let text = "20240131_235959"@;
    assert(text.len() == 15);
    let year = text.take(4);
    assert(year.len() == 4);
    assert forall|i: int| 0 <= i < year.len() implies is_digit(#[trigger] year[i]) by {
        assert(year[i] == text[i]);
    }
    let date = text.subrange(4, 8);
    assert forall|i: int| 0 <= i < date.len() implies is_digit(#[trigger] date[i]) by {
        assert(date[i] == text[4 + i]);
    }
    let time = text.skip(9);
    assert forall|i: int| 0 <= i < time.len() implies is_digit(#[trigger] time[i]) by {
        assert(time[i] == text[9 + i]);
    }
}

} // verus!
