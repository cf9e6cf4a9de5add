//! Value mappers: status text, listing labels and publish dates.

use vstd::prelude::*;
use vstd::string::*;
use crate::text::{chars_of, slice_equals, trim_bounds, trimmed};

verus! {

/// Publication status of a title.
#[derive(Clone, Copy, Debug, PartialEq, Eq, Structural)]
pub enum MangaStatus {
    Unknown,
    Ongoing,
    Completed,
}

/// The status that a status field's text stands for, once trimmed.
pub open spec fn status_of(text: Seq<char>) -> MangaStatus {
    let t = trimmed(text);
    if t == "Đang Cập Nhật"@ {
        MangaStatus::Ongoing
    } else if t == "Hoàn Thành"@ {
        MangaStatus::Completed
    } else {
        MangaStatus::Unknown
    }
}

/// Maps a status field's text to a status; unknown text gives `Unknown`.
pub fn status_mapping(text: &str) -> (r: MangaStatus)
    ensures
        r == status_of(text@),
{
    let c = chars_of(text);
    let (a, b) = trim_bounds(&c);
    if slice_equals(&c, a, b, "Đang Cập Nhật") {
        MangaStatus::Ongoing
    } else if slice_equals(&c, a, b, "Hoàn Thành") {
        MangaStatus::Completed
    } else {
        MangaStatus::Unknown
    }
}

/// The URL path segment of a listing label; empty for an unknown label.
pub open spec fn listing_slug(label: Seq<char>) -> Seq<char> {
    if label == "Truyện con gái"@ {
        "truyen-con-gai"@
    } else if label == "Truyện con trai"@ {
        "truyen-con-trai"@
    } else {
        Seq::empty()
    }
}

/// Maps a listing label to its URL path segment, or to the empty string
/// where the label names no listing.
pub fn listing_mapping(label: &str) -> (r: String)
    ensures
        r@ == listing_slug(label@),
{
    let c = chars_of(label);
    if slice_equals(&c, 0, c.len(), "Truyện con gái") {
        assert(c@.subrange(0, c@.len() as int) =~= label@);
        String::from_str("truyen-con-gai")
    } else if slice_equals(&c, 0, c.len(), "Truyện con trai") {
        assert(c@.subrange(0, c@.len() as int) =~= label@);
        String::from_str("truyen-con-trai")
    } else {
        assert(c@.subrange(0, c@.len() as int) =~= label@);
        String::new()
    }
}

/// Whether `c` is an ASCII decimal digit.
pub open spec fn is_digit(c: char) -> bool {
    48 <= c as u32 <= 57
}

/// The value of the decimal digit `c`.
pub open spec fn digit_value(c: char) -> int {
    c as u32 - 48
}

/// Whether a year is a leap year of the Gregorian calendar.
pub open spec fn is_leap(y: int) -> bool {
    (y % 4 == 0 && y % 100 != 0) || y % 400 == 0
}

/// The number of days of month `m` (1 to 12) of year `y`.
pub open spec fn days_in_month(y: int, m: int) -> int {
    if m == 2 {
        if is_leap(y) { 29 } else { 28 }
    } else if m == 4 || m == 6 || m == 9 || m == 11 {
        30
    } else {
        31
    }
}

/// The number of days of year `y` before month `m` starts.
pub open spec fn days_before_month(y: int, m: int) -> int
    decreases m,
{
    if m <= 1 {
        0
    } else {
        days_before_month(y, m - 1) + days_in_month(y, m - 1)
    }
}

/// The number of leap years from year 0 up to, not including, year `y >= 0`.
pub open spec fn leap_years_before(y: int) -> int {
    (y + 3) / 4 - (y + 99) / 100 + (y + 399) / 400
}

/// Days from 1970-01-01 to the given date.
pub open spec fn days_from_epoch(y: int, m: int, d: int) -> int {
    365 * (y - 1970) + leap_years_before(y) - leap_years_before(1970) + days_before_month(y, m)
        + d - 1
}

/// The number of two digits at `i` and `i + 1`.
pub open spec fn two_digits(s: Seq<char>, i: int) -> int {
    10 * digit_value(s[i]) + digit_value(s[i + 1])
}

/// Whether `s` reads `dd/MM/yyyy` with a day that the month has.
pub open spec fn is_date(s: Seq<char>) -> bool {
    &&& s.len() == 10
    &&& s[2] == '/' && s[5] == '/'
    &&& is_digit(s[0]) && is_digit(s[1]) && is_digit(s[3]) && is_digit(s[4])
    &&& is_digit(s[6]) && is_digit(s[7]) && is_digit(s[8]) && is_digit(s[9])
    &&& 1 <= two_digits(s, 3) <= 12
    &&& 1 <= two_digits(s, 0) <= days_in_month(date_year(s), two_digits(s, 3))
}

/// The year of a `dd/MM/yyyy` text.
pub open spec fn date_year(s: Seq<char>) -> int {
    100 * two_digits(s, 6) + two_digits(s, 8)
}

/// Seconds from 1970-01-01 00:00 UTC to the start of the day that `s`
/// names as `dd/MM/yyyy`; -1 where `s` names no such day.
pub open spec fn date_timestamp(s: Seq<char>) -> int {
    if is_date(s) {
        86400 * days_from_epoch(date_year(s), two_digits(s, 3), two_digits(s, 0))
    } else {
        -1
    }
}

/// The day after `(y, m, d)`.
pub open spec fn next_day(y: int, m: int, d: int) -> (int, int, int) {
    if d < days_in_month(y, m) {
        (y, m, d + 1)
    } else if m < 12 {
        (y, m + 1, 1)
    } else {
        (y + 1, 1, 1)
    }
}

/// The day count starts at 1970-01-01, and any day of the calendar is one
/// day before the day after it: together these fix the count of every date.
pub proof fn lemma_calendar_days(y: int, m: int, d: int)
    requires
        0 <= y,
        1 <= m <= 12,
        1 <= d <= days_in_month(y, m),
    ensures
        days_from_epoch(1970, 1, 1) == 0,
        ({
            let (y2, m2, d2) = next_day(y, m, d);
            days_from_epoch(y2, m2, d2) == days_from_epoch(y, m, d) + 1
        }),
{
    if d == days_in_month(y, m) && m == 12 {
        assert(days_before_month(y, 12) == 334 + (if is_leap(y) { 1int } else { 0 })) by {
            reveal_with_fuel(days_before_month, 12);
        }
        assert(leap_years_before(y + 1) - leap_years_before(y) == (if is_leap(y) { 1int } else { 0 }));
    } else if d == days_in_month(y, m) {
        assert(days_before_month(y, m + 1) == days_before_month(y, m) + days_in_month(y, m));
    }
}

fn digit_at(c: &Vec<char>, i: usize) -> (r: Option<i64>)
    requires
        i < c@.len(),
    ensures
        r is Some <==> is_digit(c@[i as int]),
        r matches Some(v) ==> v == digit_value(c@[i as int]) && 0 <= v <= 9,
{
    let v = c[i] as u32;
    if 48 <= v && v <= 57 {
        Some((v - 48) as i64)
    } else {
        None
    }
}

fn leap(y: i64) -> (r: bool)
    ensures
        r == is_leap(y as int),
{
    (y % 4 == 0 && y % 100 != 0) || y % 400 == 0
}

fn month_days(y: i64, m: i64) -> (r: i64)
    requires
        1 <= m <= 12,
    ensures
        r == days_in_month(y as int, m as int),
{
    if m == 2 {
        if leap(y) { 29 } else { 28 }
    } else if m == 4 || m == 6 || m == 9 || m == 11 {
        30
    } else {
        31
    }
}

fn month_start(y: i64, m: i64) -> (r: i64)
    requires
        1 <= m <= 12,
    ensures
        r == days_before_month(y as int, m as int),
        0 <= r <= 341,
{
    let mut k: i64 = 1;
    let mut r: i64 = 0;
    while k < m
        invariant
            1 <= k <= m <= 12,
            r == days_before_month(y as int, k as int),
            0 <= r <= 31 * (k - 1),
        decreases m - k,
    {
        r = r + month_days(y, k);
        k = k + 1;
    }
    r
}

/// Converts a `dd/MM/yyyy` publish date to seconds since 1970-01-01 UTC,
/// or to -1 where the text is no such date.
pub fn time_converter(text: &str) -> (r: i64)
    ensures
        r == date_timestamp(text@),
{
    let c = chars_of(text);
    if c.len() != 10 || c[2] != '/' || c[5] != '/' {
        return -1;
    }
    let d0 = digit_at(&c, 0);
    let d1 = digit_at(&c, 1);
    let m0 = digit_at(&c, 3);
    let m1 = digit_at(&c, 4);
    let y0 = digit_at(&c, 6);
    let y1 = digit_at(&c, 7);
    let y2 = digit_at(&c, 8);
    let y3 = digit_at(&c, 9);
    match (d0, d1, m0, m1, y0, y1, y2, y3) {
        (Some(d0), Some(d1), Some(m0), Some(m1), Some(y0), Some(y1), Some(y2), Some(y3)) => {
            let d = 10 * d0 + d1;
            let m = 10 * m0 + m1;
            let y = 100 * (10 * y0 + y1) + 10 * y2 + y3;
            if m < 1 || m > 12 || d < 1 || d > month_days(y, m) {
                return -1;
            }
            let leaps = (y + 3) / 4 - (y + 99) / 100 + (y + 399) / 400 - 478;
            let days = 365 * (y - 1970) + leaps + month_start(y, m) + d - 1;
            86400 * days
        },
        _ => -1,
    }
}

} // verus!
