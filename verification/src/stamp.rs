//! Time stamps of a calendar file: UTC in the basic format `YYYYMMDDTHHMMSSZ`.

use crate::civil::{
    is_reading_of, lemma_every_second_has_a_reading, lemma_seconds_are_injective,
    lemma_seconds_are_monotone, reads_before, CivilDateTime, FIRST_SECOND, LAST_SECOND,
};
use crate::grammar::{four_digits, is_digit, lemma_two_digits_fix_the_text, two_digits};
use crate::text::digit_char;
use chrono::DateTime;
use vstd::prelude::*;

verus! {

/// The pattern, in the notation of `chrono`, that writes a stamp.
pub const STAMP_PATTERN: &'static str = "%Y%m%dT%H%M%SZ";

/// Number of characters of a stamp.
pub const STAMP_LEN: usize = 16;

/// `seconds`, counted from the Unix epoch, lies in the four-digit years of
/// UTC, the only ones that a stamp can name.
pub open spec fn is_stampable(seconds: int) -> bool {
    FIRST_SECOND <= seconds <= LAST_SECOND
}

/// `s` has the shape `ddddddddTddddddZ`, where each `d` is a digit.
pub open spec fn has_stamp_shape(s: Seq<char>) -> bool {
    &&& s.len() == STAMP_LEN
    &&& forall|i: int| 0 <= i < 8 ==> is_digit(#[trigger] s[i])
    &&& s[8] == 'T'
    &&& forall|i: int| 9 <= i < 15 ==> is_digit(#[trigger] s[i])
    &&& s[15] == 'Z'
}

/// The date, hour and minute that a text of that shape writes down.
pub open spec fn stamp_civil(s: Seq<char>) -> CivilDateTime {
    CivilDateTime {
        year: four_digits(s, 0) as i32,
        month: two_digits(s, 4) as u32,
        day: two_digits(s, 6) as u32,
        hour: two_digits(s, 9) as u32,
        minute: two_digits(s, 11) as u32,
    }
}

/// The second that a text of that shape writes down.
pub open spec fn stamp_second(s: Seq<char>) -> int {
    two_digits(s, 13)
}

/// `s` is a stamp and, read as UTC, names the instant `seconds`.
pub open spec fn is_stamp_of(s: Seq<char>, seconds: int) -> bool {
    &&& has_stamp_shape(s)
    &&& stamp_civil(s).is_valid()
    &&& stamp_second(s) < 60
    &&& stamp_civil(s).seconds() + stamp_second(s) == seconds
}

/// The stamp of an instant: the text that names it.  For an instant in the
/// four-digit years there is such a text, and it is the only one.
pub open spec fn stamp_of(seconds: int) -> Seq<char> {
    choose|text: Seq<char>| is_stamp_of(text, seconds)
}

/// The stamp that writes down a minute and a second of it.
pub open spec fn stamp_text(civil: CivilDateTime, second: int) -> Seq<char> {
    seq![
        digit_char(civil.year as int / 100 / 10),
        digit_char(civil.year as int / 100 % 10),
        digit_char(civil.year as int % 100 / 10),
        digit_char(civil.year as int % 100 % 10),
        digit_char(civil.month as int / 10),
        digit_char(civil.month as int % 10),
        digit_char(civil.day as int / 10),
        digit_char(civil.day as int % 10),
        'T',
        digit_char(civil.hour as int / 10),
        digit_char(civil.hour as int % 10),
        digit_char(civil.minute as int / 10),
        digit_char(civil.minute as int % 10),
        digit_char(second / 10),
        digit_char(second % 10),
        'Z',
    ]
}

/// Two digits that were written for a number below a hundred read back as
/// that number.
proof fn lemma_two_digits_read_back(text: Seq<char>, at: int, n: int)
    requires
        0 <= n < 100,
        0 <= at,
        at + 1 < text.len(),
        text[at] == digit_char(n / 10),
        text[at + 1] == digit_char(n % 10),
    ensures
        is_digit(text[at]),
        is_digit(text[at + 1]),
        two_digits(text, at) == n,
{
}

/// Written down as a stamp, a reading of the clock names its instant.
proof fn lemma_stamp_text_names_the_instant(civil: CivilDateTime, second: int)
    requires
        civil.is_valid(),
        0 <= second < 60,
    ensures
        is_stamp_of(stamp_text(civil, second), civil.seconds() + second),
{
    let text = stamp_text(civil, second);
    lemma_two_digits_read_back(text, 0, civil.year as int / 100);
    lemma_two_digits_read_back(text, 2, civil.year as int % 100);
    lemma_two_digits_read_back(text, 4, civil.month as int);
    lemma_two_digits_read_back(text, 6, civil.day as int);
    lemma_two_digits_read_back(text, 9, civil.hour as int);
    lemma_two_digits_read_back(text, 11, civil.minute as int);
    lemma_two_digits_read_back(text, 13, second);
    assert(four_digits(text, 0) == civil.year);
    assert(stamp_civil(text) == civil);
    assert(has_stamp_shape(text));
}

/// Every instant of the four-digit years has a stamp.
pub proof fn lemma_stamp_exists(seconds: int)
    requires
        is_stampable(seconds),
    ensures
        is_stamp_of(stamp_of(seconds), seconds),
{
    lemma_every_second_has_a_reading(seconds);
    let (civil, second) = choose|civil: CivilDateTime, second: int| #[trigger]
        is_reading_of(civil, second, seconds);
    lemma_stamp_text_names_the_instant(civil, second);
}

/// An instant has one stamp only: two stamps that name the same instant are
/// the same text.
pub proof fn lemma_stamp_is_unique(a: Seq<char>, b: Seq<char>, seconds: int)
    requires
        is_stamp_of(a, seconds),
        is_stamp_of(b, seconds),
    ensures
        a == b,
{
    lemma_seconds_are_injective(stamp_civil(a), stamp_second(a), stamp_civil(b), stamp_second(b));
    assert(is_digit(a[0]) && is_digit(a[1]) && is_digit(a[2]) && is_digit(a[3]));
    assert(is_digit(b[0]) && is_digit(b[1]) && is_digit(b[2]) && is_digit(b[3]));
    assert(two_digits(a, 0) == two_digits(b, 0) && two_digits(a, 2) == two_digits(b, 2));
    lemma_two_digits_fix_the_text(a, b, 0);
    lemma_two_digits_fix_the_text(a, b, 2);
    lemma_two_digits_fix_the_text(a, b, 4);
    lemma_two_digits_fix_the_text(a, b, 6);
    lemma_two_digits_fix_the_text(a, b, 9);
    lemma_two_digits_fix_the_text(a, b, 11);
    lemma_two_digits_fix_the_text(a, b, 13);
    assert(a =~= b);
}

/// `a` does not sort after `b`: the two are the same text, or at the first
/// place where they differ `a` has the smaller character.
pub open spec fn sorts_no_later(a: Seq<char>, b: Seq<char>) -> bool {
    a == b || exists|i: int|
        0 <= i < a.len() && i < b.len() && #[trigger] a.take(i) == b.take(i) && a[i] < b[i]
}

/// Two texts that agree up to a pair of digits, where the first writes the
/// smaller number, sort in that order.
proof fn lemma_smaller_digits_sort_first(a: Seq<char>, b: Seq<char>, at: int)
    requires
        0 <= at,
        at + 1 < a.len(),
        at + 1 < b.len(),
        is_digit(a[at]) && is_digit(a[at + 1]),
        is_digit(b[at]) && is_digit(b[at + 1]),
        forall|j: int| 0 <= j < at ==> a[j] == b[j],
        two_digits(a, at) < two_digits(b, at),
    ensures
        sorts_no_later(a, b),
{
    if a[at] < b[at] {
        assert(a.take(at) =~= b.take(at));
    } else {
        assert(a[at] == b[at]);
        assert(a[at + 1] < b[at + 1]);
        assert(a.take(at + 1) =~= b.take(at + 1));
    }
}

/// Stamps sort as their instants do: the stamp of an instant does not sort
/// after the stamp of a later one.
pub proof fn lemma_stamps_sort_like_instants(a: Seq<char>, earlier: int, b: Seq<char>, later: int)
    requires
        is_stamp_of(a, earlier),
        is_stamp_of(b, later),
        earlier <= later,
    ensures
        sorts_no_later(a, b),
{
    let civil_a = stamp_civil(a);
    let civil_b = stamp_civil(b);
    let second_a = stamp_second(a);
    let second_b = stamp_second(b);
    if civil_a == civil_b && second_a == second_b {
        lemma_stamp_is_unique(a, b, earlier);
    } else if reads_before(civil_b, second_b, civil_a, second_a) {
        lemma_seconds_are_monotone(civil_b, second_b, civil_a, second_a);
    } else {
        assert(reads_before(civil_a, second_a, civil_b, second_b));
        assert(is_digit(a[0]) && is_digit(a[1]) && is_digit(a[2]) && is_digit(a[3]));
        assert(is_digit(b[0]) && is_digit(b[1]) && is_digit(b[2]) && is_digit(b[3]));
        assert(is_digit(a[4]) && is_digit(a[5]) && is_digit(a[6]) && is_digit(a[7]));
        assert(is_digit(b[4]) && is_digit(b[5]) && is_digit(b[6]) && is_digit(b[7]));
        assert(is_digit(a[9]) && is_digit(a[10]) && is_digit(a[11]) && is_digit(a[12]));
        assert(is_digit(b[9]) && is_digit(b[10]) && is_digit(b[11]) && is_digit(b[12]));
        assert(is_digit(a[13]) && is_digit(a[14]) && is_digit(b[13]) && is_digit(b[14]));
        if two_digits(a, 0) != two_digits(b, 0) {
            lemma_smaller_digits_sort_first(a, b, 0);
        } else {
            lemma_two_digits_fix_the_text(a, b, 0);
            if two_digits(a, 2) != two_digits(b, 2) {
                lemma_smaller_digits_sort_first(a, b, 2);
            } else {
                lemma_two_digits_fix_the_text(a, b, 2);
                if two_digits(a, 4) != two_digits(b, 4) {
                    lemma_smaller_digits_sort_first(a, b, 4);
                } else {
                    lemma_two_digits_fix_the_text(a, b, 4);
                    if two_digits(a, 6) != two_digits(b, 6) {
                        lemma_smaller_digits_sort_first(a, b, 6);
                    } else {
                        lemma_two_digits_fix_the_text(a, b, 6);
                        if two_digits(a, 9) != two_digits(b, 9) {
                            lemma_smaller_digits_sort_first(a, b, 9);
                        } else {
                            lemma_two_digits_fix_the_text(a, b, 9);
                            if two_digits(a, 11) != two_digits(b, 11) {
                                lemma_smaller_digits_sort_first(a, b, 11);
                            } else {
                                lemma_two_digits_fix_the_text(a, b, 11);
                                lemma_smaller_digits_sort_first(a, b, 13);
                            }
                        }
                    }
                }
            }
        }
    }
}

/// Whether a stamp can name the instant.
pub fn can_stamp(seconds: i64) -> (r: bool)
    ensures
        r == is_stampable(seconds as int),
{
    FIRST_SECOND <= seconds && seconds <= LAST_SECOND
}

/// Writes an instant as a stamp.
pub fn utc_stamp(seconds: i64) -> (r: String)
    requires
        is_stampable(seconds as int),
    ensures
        r@ == stamp_of(seconds as int),
        is_stamp_of(r@, seconds as int),
{
    let r = format_utc(seconds, STAMP_PATTERN);
    proof {
        lemma_stamp_exists(seconds as int);
        lemma_stamp_is_unique(r@, stamp_of(seconds as int), seconds as int);
    }
    r
}

/// Calls `DateTime::from_timestamp` and `DateTime::format` of `chrono`, and
/// `to_string` on what `format` returns.
///
/// Trusted: with the stamp pattern the text is a stamp, and read as UTC it
/// names this instant.  An instant in the four-digit years is in the range
/// of `chrono`, so the `unwrap` does not fail.
#[verifier::external_body]
fn format_utc(seconds: i64, pattern: &str) -> (r: String)
    requires
        is_stampable(seconds as int),
        pattern@ == STAMP_PATTERN@,
    ensures
        is_stamp_of(r@, seconds as int),
{
    DateTime::from_timestamp(seconds, 0).unwrap().format(pattern).to_string()
}

} // verus!
