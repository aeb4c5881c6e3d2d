//! The grammar of a typed date: `YYYY-MM-DD HH:MM`.
//!
//! Sixteen characters: four year digits, a hyphen, two month digits, a
//! hyphen, two day digits, one space, two hour digits, a colon and two minute
//! digits.  Every field is zero-padded; nothing may precede or follow.

use crate::civil::CivilDateTime;
use vstd::prelude::*;

verus! {

/// Number of characters of a typed date.
pub const DATE_TEXT_LEN: usize = 16;

/// `c` is one of `0` to `9`.
pub open spec fn is_digit(c: char) -> bool {
    '0' <= c <= '9'
}

/// The number that the digit `c` stands for.
pub open spec fn digit_value(c: char) -> int {
    c as int - '0' as int
}

/// The number written by the two digits of `s` that start at `at`.
pub open spec fn two_digits(s: Seq<char>, at: int) -> int {
    digit_value(s[at]) * 10 + digit_value(s[at + 1])
}

/// The number written by the four digits of `s` that start at `at`.
pub open spec fn four_digits(s: Seq<char>, at: int) -> int {
    two_digits(s, at) * 100 + two_digits(s, at + 2)
}

/// Two digits that write the same number are the same digits.
pub proof fn lemma_two_digits_fix_the_text(a: Seq<char>, b: Seq<char>, at: int)
    requires
        is_digit(a[at]) && is_digit(a[at + 1]),
        is_digit(b[at]) && is_digit(b[at + 1]),
        two_digits(a, at) == two_digits(b, at),
    ensures
        a[at] == b[at],
        a[at + 1] == b[at + 1],
{
}

/// `s` has the shape `dddd-dd-dd dd:dd`, where each `d` is a digit.
pub open spec fn has_date_shape(s: Seq<char>) -> bool {
    &&& s.len() == DATE_TEXT_LEN
    &&& is_digit(s[0]) && is_digit(s[1]) && is_digit(s[2]) && is_digit(s[3])
    &&& s[4] == '-'
    &&& is_digit(s[5]) && is_digit(s[6])
    &&& s[7] == '-'
    &&& is_digit(s[8]) && is_digit(s[9])
    &&& s[10] == ' '
    &&& is_digit(s[11]) && is_digit(s[12])
    &&& s[13] == ':'
    &&& is_digit(s[14]) && is_digit(s[15])
}

/// The fields that a text of the right shape writes down.
pub open spec fn shape_fields(s: Seq<char>) -> CivilDateTime {
    CivilDateTime {
        year: four_digits(s, 0) as i32,
        month: two_digits(s, 5) as u32,
        day: two_digits(s, 8) as u32,
        hour: two_digits(s, 11) as u32,
        minute: two_digits(s, 14) as u32,
    }
}

/// What a typed date means: the civil value it writes down, if it has the
/// shape of the grammar and names an existing minute.
pub open spec fn parsed_civil(s: Seq<char>) -> Option<CivilDateTime> {
    if has_date_shape(s) && shape_fields(s).is_valid() {
        Some(shape_fields(s))
    } else {
        None
    }
}

/// Reads the digit at `at`, if there is one.
fn digit_at(s: &str, at: usize) -> (r: Option<u32>)
    requires
        at < s@.len(),
    ensures
        r is Some <==> is_digit(s@[at as int]),
        r matches Some(d) ==> d == digit_value(s@[at as int]) && d <= 9,
{
    let c: char = s.get_char(at);
    if '0' <= c && c <= '9' {
        Some(c as u32 - '0' as u32)
    } else {
        None
    }
}

/// Reads the two digits that start at `at`, if both are digits.
fn two_digits_at(s: &str, at: usize) -> (r: Option<u32>)
    requires
        s@.len() == DATE_TEXT_LEN,
        at + 1 < DATE_TEXT_LEN,
    ensures
        r is Some <==> is_digit(s@[at as int]) && is_digit(s@[at + 1]),
        r matches Some(n) ==> n == two_digits(s@, at as int) && n <= 99,
{
    match (digit_at(s, at), digit_at(s, at + 1)) {
        (Some(tens), Some(ones)) => Some(tens * 10 + ones),
        _ => None,
    }
}

/// Whether the character at `at` is `expected`.
fn is_char_at(s: &str, at: usize, expected: char) -> (r: bool)
    requires
        at < s@.len(),
    ensures
        r == (s@[at as int] == expected),
{
    s.get_char(at) == expected
}

/// Parses a typed date.
///
/// Returns the civil value exactly when the text has the shape
/// `YYYY-MM-DD HH:MM` and its fields name an existing minute; `None` for
/// every other text.
pub fn parse_civil(s: &str) -> (r: Option<CivilDateTime>)
    ensures
        r == parsed_civil(s@),
{
    if s.unicode_len() != DATE_TEXT_LEN {
        return None;
    }
    if !(is_char_at(s, 4, '-') && is_char_at(s, 7, '-') && is_char_at(s, 10, ' ') && is_char_at(
        s,
        13,
        ':',
    )) {
        return None;
    }
    let century = two_digits_at(s, 0);
    let year_in_century = two_digits_at(s, 2);
    let month = two_digits_at(s, 5);
    let day = two_digits_at(s, 8);
    let hour = two_digits_at(s, 11);
    let minute = two_digits_at(s, 14);
    match (century, year_in_century, month, day, hour, minute) {
        (Some(c), Some(y), Some(mo), Some(d), Some(h), Some(mi)) => {
            let year: u32 = c * 100 + y;
            CivilDateTime::new(year as i32, mo, d, h, mi)
        },
        _ => None,
    }
}

} // verus!
