//! The wall clock, read as the text that an envelope carries.

use vstd::prelude::*;

verus! {

/// Whether `c` is a decimal digit.
pub open spec fn is_digit(c: char) -> bool {
    '0' <= c <= '9'
}

/// The number that the two decimal digits `tens` and `ones` write.
pub open spec fn two_digits(tens: char, ones: char) -> int {
    (tens as int - '0' as int) * 10 + (ones as int - '0' as int)
}

/// Whether `s` is a time of day written `HH:MM:SS`: two digits each, the hour
/// below 24, the minute below 60, the second at most 60 (a leap second).
pub open spec fn is_clock_text(s: Seq<char>) -> bool {
    &&& s.len() == 8
    &&& is_digit(s[0]) && is_digit(s[1]) && is_digit(s[3]) && is_digit(s[4]) && is_digit(s[6])
        && is_digit(s[7])
    &&& s[2] == ':' && s[5] == ':'
    &&& two_digits(s[0], s[1]) < 24
    &&& two_digits(s[3], s[4]) < 60
    &&& two_digits(s[6], s[7]) <= 60
}

/// Reads the clock with `std::time::SystemTime::now`, turns it into local
/// time with chrono's `DateTime::<Local>::from`, and writes it with
/// `DateTime::format` and the pattern `%H:%M:%S`. Whatever the clock and the
/// time zone say, chrono writes the hour from 00 to 23, the minute from 00 to
/// 59 and the second from 00 to 60, two digits each, with colons between.
/// chrono panics where the machine's time zone data gives no offset for the
/// time read.
#[verifier::external_body]
pub(crate) fn local_time_text() -> (t: String)
    ensures
        is_clock_text(t@),
{
    chrono::DateTime::<chrono::Local>::from(std::time::SystemTime::now())
        .format("%H:%M:%S")
        .to_string()
}

} // verus!
