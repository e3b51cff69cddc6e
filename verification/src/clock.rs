//! The wall clock, which the `chrono` crate reads, and the shape of the
//! timestamps that it is asked for. The one function in this file is not
//! proved: its contract states what `chrono` writes.

use vstd::prelude::*;

verus! {

/// The pattern by which a point in time becomes a key: year, month and day,
/// a space, then hour, minute and second, each zero-padded.
pub const TIMESTAMP_FORMAT: &'static str = "%Y-%m-%d %H:%M:%S";

/// The character is a decimal digit.
pub open spec fn is_digit(c: char) -> bool {
    '0' as u32 <= c as u32 <= '9' as u32
}

/// The characters at `at` and `at + 1` are digits, and the number that they
/// write lies between `low` and `high`.
pub open spec fn two_digits_within(text: Seq<char>, at: int, low: int, high: int) -> bool {
    &&& is_digit(text[at])
    &&& is_digit(text[at + 1])
    &&& low <= (text[at] as u32 - '0' as u32) * 10 + (text[at + 1] as u32 - '0' as u32) <= high
}

/// The text writes a year: four digits, or a sign and at least four digits
/// for a year that four digits cannot hold.
pub open spec fn is_year(text: Seq<char>) -> bool {
    if text.len() == 4 {
        forall|i: int| 0 <= i < 4 ==> is_digit(#[trigger] text[i])
    } else {
        &&& text.len() > 4
        &&& (text[0] == '+' || text[0] == '-')
        &&& forall|i: int| 1 <= i < text.len() ==> is_digit(#[trigger] text[i])
    }
}

/// The text is a timestamp `YYYY-MM-DD HH:MM:SS`: a year, then month, day,
/// hour, minute and second in two digits each. The second may be 60, in a
/// leap second.
pub open spec fn is_timestamp(text: Seq<char>) -> bool {
    let rest = text.len() - 15;
    &&& rest >= 4
    &&& is_year(text.subrange(0, rest))
    &&& text[rest] == '-'
    &&& two_digits_within(text, rest + 1, 1, 12)
    &&& text[rest + 3] == '-'
    &&& two_digits_within(text, rest + 4, 1, 31)
    &&& text[rest + 6] == ' '
    &&& two_digits_within(text, rest + 7, 0, 23)
    &&& text[rest + 9] == ':'
    &&& two_digits_within(text, rest + 10, 0, 59)
    &&& text[rest + 12] == ':'
    &&& two_digits_within(text, rest + 13, 0, 60)
}

/// `chrono::Local::now`, written out by `DateTime::format`: the local time
/// of the call, in the timestamp pattern. Which time that is depends on the
/// clock and on the machine's time zone; the contract states the shape that
/// `chrono` gives to every time. No other pattern is admitted: `chrono`
/// fails on one that it cannot parse. The call does not return if the clock
/// stands before 1970.
#[verifier::external_body]
pub(crate) fn local_time(pattern: &str) -> (text: String)
    requires
        pattern@ == TIMESTAMP_FORMAT@,
    ensures
        is_timestamp(text@),
{
    chrono::Local::now().format(pattern).to_string()
}

} // verus!
